//! The coverage walker: a cursor over the index space `[0, last]` that, in
//! each discovery round, samples the cursor and then its fingers, stops at
//! the first accepted sample and moves the cursor on.
use crate::fingers::{spec_wrapping_successor, spec_xor_fingers, wrapping_successor_of, xor_fingers_of};
use vstd::prelude::*;

verus! {

/// Where the cursor goes after a round that found an accepted sample at
/// index `t`.
#[derive(Clone, Copy, Debug, PartialEq, Eq, Structural)]
pub enum HitPolicy {
    /// Jump to `t`, then on to the successor of `t`.
    AdvancePastHit,
    /// Jump to `t` and stay there.
    StayOnHit,
}

/// What a walker probes: the last valid index, where the cursor goes after a
/// hit, the item that each index yields and which items are accepted.
#[verifier::reject_recursive_types(Item)]
pub struct Space<Item> {
    pub last: u64,
    pub policy: HitPolicy,
    pub item_at: spec_fn(u64) -> Item,
    pub accepts: spec_fn(Item) -> bool,
}

impl<Item> Space<Item> {
    /// Whether sampling `idx` yields an accepted item.
    pub open spec fn hits(self, idx: u64) -> bool {
        idx <= self.last && (self.accepts)((self.item_at)(idx))
    }

    /// For each index of `s`, whether its sample is accepted.
    pub open spec fn hit_flags(self, s: Seq<u64>) -> Seq<bool> {
        s.map_values(|i: u64| self.hits(i))
    }

    /// The successor of `idx` within `[0, last]`.
    pub open spec fn successor(self, idx: u64) -> u64 {
        capped_successor(self.last, idx)
    }

    /// The index at which a round from `cur` finds its accepted sample:
    /// `cur` itself, else the first of its fingers within range.
    pub open spec fn probe_target(self, cur: u64) -> Option<u64> {
        if self.hits(cur) {
            Some(cur)
        } else {
            let fs = fingers_within(self.last, cur);
            match first_true(self.hit_flags(fs), 0) {
                Some(j) => Some(fs[j as int]),
                None => None,
            }
        }
    }

    /// The cursor after a round from `cur`.
    pub open spec fn cursor_after_round(self, cur: u64) -> u64 {
        match self.probe_target(cur) {
            Some(t) => match self.policy {
                HitPolicy::AdvancePastHit => self.successor(t),
                HitPolicy::StayOnHit => t,
            },
            None => self.successor(cur),
        }
    }

    /// What a round from `cur` returns.
    pub open spec fn round_result(self, cur: u64) -> Option<Item> {
        match self.probe_target(cur) {
            Some(t) => Some((self.item_at)(t)),
            None => None,
        }
    }
}

/// The successor of `idx` within `[0, last]`: the wrapping successor, or `0`
/// where that lies beyond `last`.
pub open spec fn capped_successor(last: u64, idx: u64) -> u64 {
    let a = spec_wrapping_successor(idx);
    if a > last {
        0
    } else {
        a
    }
}

/// The length of the longest prefix of `s` within `last`, scanning on from
/// position `k` of a prefix already known to lie within it.
pub open spec fn prefix_within_len(s: Seq<u64>, last: u64, k: nat) -> nat
    decreases s.len() - k,
{
    if k >= s.len() || s[k as int] > last {
        k
    } else {
        prefix_within_len(s, last, k + 1)
    }
}

/// The fingers of `idx` up to (not including) the first one beyond `last`.
pub open spec fn fingers_within(last: u64, idx: u64) -> Seq<u64> {
    let s = spec_xor_fingers(idx);
    s.take(prefix_within_len(s, last, 0) as int)
}

/// The position of the first `true` in `flags[k..]`.
pub open spec fn first_true(flags: Seq<bool>, k: nat) -> Option<nat>
    decreases flags.len() - k,
{
    if k >= flags.len() {
        None
    } else if flags[k as int] {
        Some(k)
    } else {
        first_true(flags, k + 1)
    }
}

/// A walker over `[0, last]` with a cursor, a sampling function and an
/// acceptance test.
pub trait Coverage: Sized {
    type Item;

    /// The cursor.
    spec fn cursor_spec(&self) -> u64;

    /// The space that the walker probes.
    spec fn space(&self) -> Space<Self::Item>;

    fn last_index(&self) -> (r: u64)
        ensures
            r == self.space().last,
    ;

    fn hit_policy(&self) -> (r: HitPolicy)
        ensures
            r == self.space().policy,
    ;

    fn cursor_index(&self) -> (r: u64)
        ensures
            r == self.cursor_spec(),
    ;

    fn cursor_jump(&mut self, idx: u64)
        ensures
            final(self).cursor_spec() == idx,
            final(self).space() == old(self).space(),
    ;

    fn raw_sample(&self, idx: u64) -> (r: Self::Item)
        ensures
            r == (self.space().item_at)(idx),
    ;

    fn predicate(&self, item: &Self::Item) -> (r: bool)
        ensures
            r == (self.space().accepts)(*item),
    ;

    /// Accounting for an accepted sample; the space and the cursor stay.
    fn on_hit(&mut self, idx: u64)
        ensures
            final(self).cursor_spec() == old(self).cursor_spec(),
            final(self).space() == old(self).space(),
    {
    }

    /// Accounting for a rejected sample; the space and the cursor stay.
    fn on_fail(&mut self, idx: u64)
        ensures
            final(self).cursor_spec() == old(self).cursor_spec(),
            final(self).space() == old(self).space(),
    {
    }

    /// Samples `idx`: nothing beyond the last index, else the item where it
    /// is accepted.
    fn sample(&mut self, idx: u64) -> (r: Option<Self::Item>)
        ensures
            r == (if old(self).space().hits(idx) {
                Some((old(self).space().item_at)(idx))
            } else {
                None
            }),
            final(self).cursor_spec() == old(self).cursor_spec(),
            final(self).space() == old(self).space(),
    {
        if idx > self.last_index() {
            None
        } else {
            let smp = self.raw_sample(idx);
            if self.predicate(&smp) {
                self.on_hit(idx);
                Some(smp)
            } else {
                self.on_fail(idx);
                None
            }
        }
    }

    /// The fingers of the cursor, up to the first one beyond the last index.
    fn fingers(&self) -> (r: Vec<u64>)
        ensures
            r@ == fingers_within(self.space().last, self.cursor_spec()),
    {
        let all = xor_fingers_of(self.cursor_index());
        let last = self.last_index();
        let mut r: Vec<u64> = Vec::new();
        let mut j: usize = 0;
        while j < all.len() && all[j] <= last
            invariant
                all@ == spec_xor_fingers(self.cursor_spec()),
                last == self.space().last,
                j <= all@.len(),
                r@ == all@.take(j as int),
                prefix_within_len(all@, last, 0) == prefix_within_len(all@, last, j as nat),
            decreases all.len() - j,
        {
            r.push(all[j]);
            j = j + 1;
            proof {
                assert(r@ =~= all@.take(j as int));
            }
        }
        r
    }

    /// The successor of the cursor within `[0, last]`.
    fn successor(&self) -> (r: u64)
        ensures
            r == self.space().successor(self.cursor_spec()),
    {
        let a = wrapping_successor_of(self.cursor_index());
        if a > self.last_index() {
            0
        } else {
            a
        }
    }

    /// One discovery round: sample the cursor, then each of its fingers in
    /// range, and return the first accepted item.
    fn shallow_discover(&mut self) -> (r: Option<Self::Item>)
        ensures
            r == old(self).space().round_result(old(self).cursor_spec()),
            final(self).cursor_spec() == old(self).space().cursor_after_round(
                old(self).cursor_spec(),
            ),
            final(self).space() == old(self).space(),
    {
        let ghost sp = self.space();
        let cur = self.cursor_index();
        match self.sample(cur) {
            Some(hit) => {
                if self.hit_policy() == HitPolicy::AdvancePastHit {
                    let next = self.successor();
                    self.cursor_jump(next);
                }
                return Some(hit);
            },
            None => {},
        }
        let fs = self.fingers();
        let mut j: usize = 0;
        while j < fs.len()
            invariant
                sp == old(self).space(),
                cur == old(self).cursor_spec(),
                fs@ == fingers_within(sp.last, cur),
                !sp.hits(cur),
                self.cursor_spec() == cur,
                self.space() == sp,
                j <= fs@.len(),
                first_true(sp.hit_flags(fs@), 0) == first_true(sp.hit_flags(fs@), j as nat),
            decreases fs.len() - j,
        {
            let idx = fs[j];
            match self.sample(idx) {
                Some(hit) => {
                    proof {
                        let flags = sp.hit_flags(fs@);
                        assert(flags[j as int]);
                        assert(first_true(flags, j as nat) == Some(j as nat));
                    }
                    self.cursor_jump(idx);
                    if self.hit_policy() == HitPolicy::AdvancePastHit {
                        let next = self.successor();
                        self.cursor_jump(next);
                    }
                    return Some(hit);
                },
                None => {},
            }
            j = j + 1;
        }
        let next = self.successor();
        self.cursor_jump(next);
        None
    }
}

/// What `n` rounds from `cur` return, in order.
pub open spec fn rounds<Item>(sp: Space<Item>, cur: u64, n: nat) -> Seq<Option<Item>>
    decreases n,
{
    if n == 0 {
        Seq::empty()
    } else {
        seq![sp.round_result(cur)] + rounds(sp, sp.cursor_after_round(cur), (n - 1) as nat)
    }
}

/// The cursor after `n` rounds from `cur`.
pub open spec fn cursor_after_rounds<Item>(sp: Space<Item>, cur: u64, n: nat) -> u64
    decreases n,
{
    if n == 0 {
        cur
    } else {
        cursor_after_rounds(sp, sp.cursor_after_round(cur), (n - 1) as nat)
    }
}

/// Runs `n` discovery rounds on `c` and returns what each of them returned.
pub fn discover_rounds<C: Coverage>(c: &mut C, n: usize) -> (r: Vec<Option<C::Item>>)
    ensures
        r@ == rounds(old(c).space(), old(c).cursor_spec(), n as nat),
        final(c).cursor_spec() == cursor_after_rounds(old(c).space(), old(c).cursor_spec(), n as nat),
        final(c).space() == old(c).space(),
{
    let ghost sp = c.space();
    let ghost start = c.cursor_spec();
    let mut r: Vec<Option<C::Item>> = Vec::new();
    let mut i: usize = 0;
    while i < n
        invariant
            sp == old(c).space(),
            start == old(c).cursor_spec(),
            c.space() == sp,
            i <= n,
            r@ + rounds(sp, c.cursor_spec(), (n - i) as nat) == rounds(sp, start, n as nat),
            cursor_after_rounds(sp, c.cursor_spec(), (n - i) as nat) == cursor_after_rounds(
                sp,
                start,
                n as nat,
            ),
        decreases n - i,
    {
        let ghost before = c.cursor_spec();
        let ghost done = r@;
        let x = c.shallow_discover();
        r.push(x);
        i = i + 1;
        proof {
            let rest = rounds(sp, c.cursor_spec(), (n - i) as nat);
            assert(rounds(sp, before, (n - i + 1) as nat) == seq![x] + rest);
            assert(r@ + rest =~= done + (seq![x] + rest));
        }
    }
    r
}

/// Rounds keep no hidden state: two walkers over the same space from the
/// same cursor return the same results, round for round, and end at the
/// same cursor.
pub proof fn lemma_rounds_reproducible<C: Coverage>(a: C, b: C, n: nat)
    requires
        a.space() == b.space(),
        a.cursor_spec() == b.cursor_spec(),
    ensures
        rounds(a.space(), a.cursor_spec(), n) == rounds(b.space(), b.cursor_spec(), n),
        cursor_after_rounds(a.space(), a.cursor_spec(), n) == cursor_after_rounds(
            b.space(),
            b.cursor_spec(),
            n,
        ),
{
}

/// `g` can be called on every index and always gives the same item for it.
pub open spec fn is_generator<Item, G: Fn(u64) -> Item>(g: G) -> bool {
    &&& forall|i: u64| #[trigger] g.requires((i,))
    &&& forall|i: u64, x: Item, y: Item|
        #[trigger] g.ensures((i,), x) && #[trigger] g.ensures((i,), y) ==> x == y
}

/// `p` can be called on every item and always gives the same answer for it.
pub open spec fn is_acceptance<Item, P: Fn(&Item) -> bool>(p: P) -> bool {
    &&& forall|x: Item| #[trigger] p.requires((&x,))
    &&& forall|x: Item, a: bool, b: bool|
        #[trigger] p.ensures((&x,), a) && #[trigger] p.ensures((&x,), b) ==> a == b
}

/// The items that `g` produces, as a function of the index.
pub open spec fn generated_by<Item, G: Fn(u64) -> Item>(g: G) -> spec_fn(u64) -> Item {
    |i: u64| choose|x: Item| g.ensures((i,), x)
}

/// The acceptance that `p` decides, as a function of the item.
pub open spec fn accepted_by<Item, P: Fn(&Item) -> bool>(p: P) -> spec_fn(Item) -> bool {
    |x: Item| choose|b: bool| p.ensures((&x,), b)
}

/// What a generator returns is the item that `generated_by` names.
pub proof fn lemma_generated_by<Item, G: Fn(u64) -> Item>(g: G, i: u64, x: Item)
    requires
        is_generator(g),
        g.ensures((i,), x),
    ensures
        generated_by(g)(i) == x,
{
    let y = choose|y: Item| g.ensures((i,), y);
    assert(g.ensures((i,), y));
}

/// What an acceptance closure returns is the answer that `accepted_by` names.
pub proof fn lemma_accepted_by<Item, P: Fn(&Item) -> bool>(p: P, x: Item, b: bool)
    requires
        is_acceptance(p),
        p.ensures((&x,), b),
    ensures
        accepted_by(p)(x) == b,
{
    let c = choose|c: bool| p.ensures((&x,), c);
    assert(p.ensures((&x,), c));
}

/// A walker whose items come from a generator closure and whose acceptance
/// is a predicate closure.
#[verifier::reject_recursive_types(Item)]
pub struct SimpleCov<Item, Fgen: Fn(u64) -> Item, Pred: Fn(&Item) -> bool> {
    cursor_index: u64,
    last_index: u64,
    policy: HitPolicy,
    fgen: Fgen,
    pred: Pred,
    _marker: std::marker::PhantomData<Item>,
}

impl<Item, Fgen: Fn(u64) -> Item, Pred: Fn(&Item) -> bool> SimpleCov<Item, Fgen, Pred> {
    #[verifier::type_invariant]
    spec fn well_formed(&self) -> bool {
        is_generator(self.fgen) && is_acceptance(self.pred)
    }

    /// A walker at index `0` over the whole `u64` range, advancing past each
    /// hit.
    pub fn new(fgen: Fgen, pred: Pred) -> (r: Self)
        requires
            is_generator(fgen),
            is_acceptance(pred),
        ensures
            r.cursor_spec() == 0,
            r.space() == (Space {
                last: u64::MAX,
                policy: HitPolicy::AdvancePastHit,
                item_at: generated_by(fgen),
                accepts: accepted_by(pred),
            }),
    {
        SimpleCov {
            cursor_index: 0,
            last_index: u64::MAX,
            policy: HitPolicy::AdvancePastHit,
            fgen,
            pred,
            _marker: std::marker::PhantomData,
        }
    }

    /// The same walker with `last` as its last valid index.
    pub fn with_last_index(self, last: u64) -> (r: Self)
        ensures
            r.cursor_spec() == self.cursor_spec(),
            r.space() == (Space { last, ..self.space() }),
    {
        proof {
            use_type_invariant(&self);
        }
        SimpleCov { last_index: last, ..self }
    }

    /// The same walker with `policy` deciding where the cursor goes after a
    /// hit.
    pub fn with_policy(self, policy: HitPolicy) -> (r: Self)
        ensures
            r.cursor_spec() == self.cursor_spec(),
            r.space() == (Space { policy, ..self.space() }),
    {
        proof {
            use_type_invariant(&self);
        }
        SimpleCov { policy, ..self }
    }
}

impl<Item, Fgen: Fn(u64) -> Item, Pred: Fn(&Item) -> bool> Coverage for SimpleCov<
    Item,
    Fgen,
    Pred,
> {
    type Item = Item;

    closed spec fn cursor_spec(&self) -> u64 {
        self.cursor_index
    }

    closed spec fn space(&self) -> Space<Item> {
        Space {
            last: self.last_index,
            policy: self.policy,
            item_at: generated_by(self.fgen),
            accepts: accepted_by(self.pred),
        }
    }

    fn last_index(&self) -> (r: u64) {
        self.last_index
    }

    fn hit_policy(&self) -> (r: HitPolicy) {
        self.policy
    }

    fn cursor_index(&self) -> (r: u64) {
        self.cursor_index
    }

    fn cursor_jump(&mut self, idx: u64) {
        proof {
            use_type_invariant(&*self);
        }
        self.cursor_index = idx;
    }

    fn raw_sample(&self, idx: u64) -> (r: Item) {
        proof {
            use_type_invariant(self);
        }
        let r = (self.fgen)(idx);
        proof {
            lemma_generated_by(self.fgen, idx, r);
        }
        r
    }

    fn predicate(&self, item: &Item) -> (r: bool) {
        proof {
            use_type_invariant(self);
        }
        let r = (self.pred)(item);
        proof {
            lemma_accepted_by(self.pred, *item, r);
        }
        r
    }
}

proof fn lemma_first_true(flags: Seq<bool>, k: nat)
    ensures
        first_true(flags, k) matches Some(j) ==> k <= j < flags.len() && flags[j as int],
        first_true(flags, k) is None ==> forall|i: int| k <= i < flags.len() ==> !flags[i],
    decreases flags.len() - k,
{
    if k < flags.len() && !flags[k as int] {
        lemma_first_true(flags, k + 1);
    }
}

proof fn lemma_prefix_within_len(s: Seq<u64>, last: u64, k: nat)
    requires
        k <= s.len(),
    ensures
        k <= prefix_within_len(s, last, k) <= s.len(),
        forall|i: int| k <= i < prefix_within_len(s, last, k) ==> s[i] <= last,
        prefix_within_len(s, last, k) < s.len() ==> s[prefix_within_len(s, last, k) as int] > last,
    decreases s.len() - k,
{
    if k < s.len() && s[k as int] <= last {
        lemma_prefix_within_len(s, last, k + 1);
    }
}

/// Nothing beyond the last index is ever reported: the fingers in range are
/// the fingers of `cur` up to the first one beyond `last`, all of them within
/// `last`; no index beyond `last` hits; and a round finds its item at an index
/// within `last`.
pub proof fn lemma_nothing_beyond_last<Item>(sp: Space<Item>, cur: u64)
    ensures
        fingers_within(sp.last, cur).len() <= spec_xor_fingers(cur).len(),
        fingers_within(sp.last, cur) == spec_xor_fingers(cur).take(
            fingers_within(sp.last, cur).len() as int,
        ),
        forall|j: int|
            0 <= j < fingers_within(sp.last, cur).len() ==> #[trigger] fingers_within(
                sp.last,
                cur,
            )[j] <= sp.last,
        fingers_within(sp.last, cur).len() < spec_xor_fingers(cur).len() ==> spec_xor_fingers(
            cur,
        )[fingers_within(sp.last, cur).len() as int] > sp.last,
        forall|i: u64| i > sp.last ==> !#[trigger] sp.hits(i),
        sp.probe_target(cur) matches Some(t) ==> t <= sp.last && sp.hits(t),
{
    let s = spec_xor_fingers(cur);
    lemma_prefix_within_len(s, sp.last, 0);
    let fs = fingers_within(sp.last, cur);
    assert(fs.len() == prefix_within_len(s, sp.last, 0));
    lemma_first_true(sp.hit_flags(fs), 0);
}

/// In a space where `k` is the only index whose sample is accepted, every
/// round makes progress: it either finds `k`, returning its item, or finds
/// nothing and moves the cursor to its successor (the next index, while the
/// cursor is below the last index). A round from `k`, or from an index with
/// `k` among its fingers in range, always finds `k`.
pub proof fn lemma_single_hit_progress<Item>(sp: Space<Item>, cur: u64, k: u64)
    requires
        forall|i: u64| #[trigger] sp.hits(i) <==> i == k,
    ensures
        sp.probe_target(cur) == Some(k) || sp.probe_target(cur) is None,
        sp.probe_target(cur) == Some(k) ==> sp.round_result(cur) == Some((sp.item_at)(k)),
        sp.probe_target(cur) is None ==> sp.round_result(cur) is None && sp.cursor_after_round(cur)
            == sp.successor(cur),
        sp.probe_target(cur) is None && cur < sp.last ==> sp.cursor_after_round(cur) == cur + 1,
        cur == k || fingers_within(sp.last, cur).contains(k) ==> sp.probe_target(cur) == Some(k),
{
    lemma_nothing_beyond_last(sp, cur);
    let fs = fingers_within(sp.last, cur);
    let flags = sp.hit_flags(fs);
    lemma_first_true(flags, 0);
    if fs.contains(k) && !sp.hits(cur) {
        let j = choose|j: int| 0 <= j < fs.len() && fs[j] == k;
        assert(flags[j]);
    }
}

} // verus!
