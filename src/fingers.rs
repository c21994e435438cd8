//! Finger generation over `u64` indices: the powers of two that a probe may
//! flip, the indices that flipping each of them reaches, and the wrapping
//! successor of an index.
use vstd::arithmetic::power2::{pow2, lemma_pow2_strictly_increases, lemma2_to64, lemma2_to64_rest};
use vstd::prelude::*;

verus! {

/// Number of powers that `powers` yields for a `u64`: `2^1` through `2^62`,
/// since `2^63` already exceeds `u64::MAX >> 1`.
pub const POWER_COUNT: usize = 62;

/// The `k`-th power yielded (counting from zero): `2^(k + 1)`.
pub open spec fn power_at(k: int) -> u64 {
    pow2((k + 1) as nat) as u64
}

/// The powers `2^p` for `p = 1, 2, ...` up to the last one not exceeding
/// `u64::MAX >> 1`, in increasing order.
pub open spec fn spec_powers() -> Seq<u64> {
    Seq::new(POWER_COUNT as nat, |k: int| power_at(k))
}

/// The fingers of `i`: `i XOR p` for each power `p` of `spec_powers`, in the
/// same order.
pub open spec fn spec_xor_fingers(i: u64) -> Seq<u64> {
    spec_powers().map_values(|p: u64| i ^ p)
}

/// `i + 1`, or `0` for the largest index.
pub open spec fn spec_wrapping_successor(i: u64) -> u64 {
    if i == u64::MAX {
        0
    } else {
        (i + 1) as u64
    }
}

/// Whether `d` is a power of two that `powers` yields.
pub open spec fn is_finger_power(d: u64) -> bool {
    exists|p: nat| 1 <= p && pow2(p) <= (u64::MAX >> 1) as nat && d as nat == pow2(p)
}

/// Generation of power-of-two offsets and the fingers built from them.
pub trait AutoFingers: Sized {
    spec fn powers_spec(&self) -> Seq<Self>;

    spec fn xor_fingers_spec(&self) -> Seq<Self>;

    spec fn wrapping_successor_spec(&self) -> Self;

    fn powers(&self) -> (r: Vec<Self>)
        ensures
            r@ == self.powers_spec(),
    ;

    fn xor_fingers(&self) -> (r: Vec<Self>)
        ensures
            r@ == self.xor_fingers_spec(),
    ;

    fn wrapping_successor(&self) -> (r: Self)
        ensures
            r == self.wrapping_successor_spec(),
    ;
}

/// Finger generation as the walker sees it: the fingers of an index and the
/// index to move to next.
pub trait Fingers: Sized {
    spec fn fingers_spec(&self) -> Seq<Self>;

    spec fn successor_spec(&self) -> Self;

    fn fingers(&self) -> (r: Vec<Self>)
        ensures
            r@ == self.fingers_spec(),
    ;

    fn successor(&self) -> (r: Self)
        ensures
            r == self.successor_spec(),
    ;
}

/// An index type: ordered, with fingers, and with a first index.
pub trait Index: Fingers {
    spec fn zero_spec() -> Self;

    fn zero() -> (r: Self)
        ensures
            r == Self::zero_spec(),
    ;
}

proof fn lemma_power_at_bounds(k: int)
    requires
        0 <= k < POWER_COUNT,
    ensures
        2 <= pow2((k + 1) as nat) <= pow2(62),
        pow2(62) == 0x4000_0000_0000_0000,
        power_at(k) as nat == pow2((k + 1) as nat),
{
    lemma2_to64();
    lemma2_to64_rest();
    if k + 1 < 62 {
        lemma_pow2_strictly_increases((k + 1) as nat, 62);
    }
    if 1 < k + 1 {
        lemma_pow2_strictly_increases(1, (k + 1) as nat);
    }
}

impl AutoFingers for u64 {
    open spec fn powers_spec(&self) -> Seq<u64> {
        spec_powers()
    }

    open spec fn xor_fingers_spec(&self) -> Seq<u64> {
        spec_xor_fingers(*self)
    }

    open spec fn wrapping_successor_spec(&self) -> u64 {
        spec_wrapping_successor(*self)
    }

    fn powers(&self) -> (r: Vec<u64>) {
        powers_of_u64()
    }

    fn xor_fingers(&self) -> (r: Vec<u64>) {
        xor_fingers_of(*self)
    }

    fn wrapping_successor(&self) -> (r: u64) {
        wrapping_successor_of(*self)
    }
}

/// The powers of `spec_powers`: doubles from `2` while the power stays
/// within `u64::MAX >> 1`.
pub fn powers_of_u64() -> (r: Vec<u64>)
    ensures
        r@ == spec_powers(),
{
    let mut r: Vec<u64> = Vec::new();
    let mut a: u64 = 2;
    let mut p: usize = 1;
    let half: u64 = u64::MAX >> 1u64;
    proof {
        assert(u64::MAX >> 1u64 == 0x7fff_ffff_ffff_ffffu64) by (bit_vector);
        lemma2_to64();
        lemma2_to64_rest();
    }
    while a <= half
        invariant
            1 <= p <= POWER_COUNT + 1,
            r@.len() == p - 1,
            a as nat == pow2(p as nat),
            half == 0x7fff_ffff_ffff_ffffu64,
            pow2(62) == 0x4000_0000_0000_0000,
            pow2(63) == 0x8000_0000_0000_0000,
            forall|k: int| 0 <= k < r@.len() ==> r@[k] == power_at(k),
        decreases POWER_COUNT + 1 - p,
    {
        proof {
            if p < 62 {
                lemma_pow2_strictly_increases(p as nat, 62);
            } else if p > 62 {
                lemma_pow2_strictly_increases(63, p as nat);
            }
            vstd::arithmetic::power2::lemma_pow2_unfold((p + 1) as nat);
        }
        r.push(a);
        a = a * 2;
        p = p + 1;
    }
    proof {
        if p < 63 {
            lemma_pow2_strictly_increases(p as nat, 63);
        }
        assert(r@ =~= spec_powers());
    }
    r
}

/// The fingers of `pos`.
pub fn xor_fingers_of(pos: u64) -> (r: Vec<u64>)
    ensures
        r@ == spec_xor_fingers(pos),
{
    let ps = powers_of_u64();
    let mut r: Vec<u64> = Vec::new();
    let mut j: usize = 0;
    while j < ps.len()
        invariant
            ps@ == spec_powers(),
            j <= ps@.len(),
            r@.len() == j,
            forall|k: int| 0 <= k < j ==> r@[k] == pos ^ ps@[k],
        decreases ps.len() - j,
    {
        r.push(ps[j] ^ pos);
        proof {
            let x = ps@[j as int];
            assert(x ^ pos == pos ^ x) by (bit_vector);
        }
        j = j + 1;
    }
    proof {
        assert(r@ =~= spec_xor_fingers(pos));
    }
    r
}

/// The wrapping successor of `i`, found by comparing the incremented value
/// with `i`.
pub fn wrapping_successor_of(i: u64) -> (r: u64)
    ensures
        r == spec_wrapping_successor(i),
{
    let a = i.wrapping_add(1);
    if a == i {
        0
    } else {
        a
    }
}

impl Fingers for u64 {
    open spec fn fingers_spec(&self) -> Seq<u64> {
        spec_xor_fingers(*self)
    }

    open spec fn successor_spec(&self) -> u64 {
        spec_wrapping_successor(*self)
    }

    fn fingers(&self) -> (r: Vec<u64>) {
        self.xor_fingers()
    }

    fn successor(&self) -> (r: u64) {
        self.wrapping_successor()
    }
}

impl Index for u64 {
    open spec fn zero_spec() -> u64 {
        0
    }

    fn zero() -> (r: u64) {
        0
    }
}

/// Every finger of `i` differs from `i` by exactly one power of two that
/// `powers` yields, and no finger occurs twice.
pub proof fn lemma_xor_fingers_are_power_steps(i: u64)
    ensures
        spec_xor_fingers(i).len() == POWER_COUNT,
        forall|k: int|
            0 <= k < POWER_COUNT ==> #[trigger] spec_xor_fingers(i)[k] ^ i == power_at(k),
        forall|k: int|
            0 <= k < POWER_COUNT ==> is_finger_power(#[trigger] spec_xor_fingers(i)[k] ^ i),
        spec_xor_fingers(i).no_duplicates(),
{
    let f = spec_xor_fingers(i);
    assert forall|k: int| 0 <= k < POWER_COUNT implies #[trigger] f[k] ^ i == power_at(k)
        && is_finger_power(f[k] ^ i) by {
        let p = power_at(k);
        assert((i ^ p) ^ i == p) by (bit_vector);
        lemma_power_at_bounds(k);
        assert((u64::MAX >> 1u64) == 0x7fff_ffff_ffff_ffffu64) by (bit_vector);
        assert(1 <= (k + 1) as nat && pow2((k + 1) as nat) <= (u64::MAX >> 1) as nat
            && p as nat == pow2((k + 1) as nat));
    }
    assert forall|a: int, b: int|
        0 <= a < f.len() && 0 <= b < f.len() && a != b implies f[a] != f[b] by {
        lemma_power_at_bounds(a);
        lemma_power_at_bounds(b);
        if a < b {
            lemma_pow2_strictly_increases((a + 1) as nat, (b + 1) as nat);
        } else {
            lemma_pow2_strictly_increases((b + 1) as nat, (a + 1) as nat);
        }
        let x = power_at(a);
        let y = power_at(b);
        assert(x != y);
        assert(x != y ==> i ^ x != i ^ y) by (bit_vector);
    }
}

/// The successor of every index but the largest is the next integer; the
/// successor of the largest is zero.
pub proof fn lemma_wrapping_successor(i: u64)
    ensures
        i < u64::MAX ==> i.wrapping_successor_spec() == i + 1,
        i == u64::MAX ==> i.wrapping_successor_spec() == 0,
{
}

/// Generation keeps no state: the powers are the same from every index, and
/// the fingers of an index are determined by that index alone.
pub proof fn lemma_generation_is_restartable(i: u64, j: u64)
    ensures
        i.powers_spec() == j.powers_spec(),
        i == j ==> i.xor_fingers_spec() == j.xor_fingers_spec(),
        i.fingers_spec() == i.xor_fingers_spec(),
{
}

} // verus!
