//! Methods whose arguments are described by a keyed list of generic
//! parameters: each entry gives a key and what stands for it (a type by
//! name, a `usize` constant or a string constant), and a lookup finds the
//! first entry for a key.
use vstd::prelude::*;

verus! {

/// The key of a generic parameter.
#[derive(Clone, Copy, Debug, PartialEq, Eq, Structural)]
pub enum Key {
    A,
    B,
    C,
}

/// Keys that can be compared with keys of type `K`.
pub trait Equal<K> {
    spec fn equal_spec(&self, other: &K) -> bool;

    fn equal(&self, other: &K) -> (r: bool)
        ensures
            r == self.equal_spec(other),
    ;
}

impl Equal<Key> for Key {
    open spec fn equal_spec(&self, other: &Key) -> bool {
        *self == *other
    }

    fn equal(&self, other: &Key) -> (r: bool) {
        *self == *other
    }
}

/// What stands for a generic parameter: its `usize` constant and its string
/// constant, `0` and `""` where it has none.
pub trait GenTrait {
    spec fn usize_spec(&self) -> usize;

    spec fn str_spec(&self) -> Seq<char>;

    fn usize_value(&self) -> (r: usize)
        ensures
            r == self.usize_spec(),
    ;

    fn str_value(&self) -> (r: &'static str)
        ensures
            r@ == self.str_spec(),
    ;
}

/// A type, by the name of what it is used as.
#[derive(Clone, Copy, Debug)]
pub struct GenType {
    pub name: &'static str,
}

/// A `usize` constant.
#[derive(Clone, Copy, Debug)]
pub struct GenConstUSize(pub usize);

/// A string constant.
#[derive(Clone, Copy, Debug)]
pub struct GenConstRefStaticStr(pub &'static str);

impl GenTrait for GenType {
    open spec fn usize_spec(&self) -> usize {
        0
    }

    open spec fn str_spec(&self) -> Seq<char> {
        Seq::empty()
    }

    fn usize_value(&self) -> (r: usize) {
        0
    }

    fn str_value(&self) -> (r: &'static str) {
        proof {
            reveal_strlit("");
        }
        ""
    }
}

impl GenTrait for GenConstUSize {
    open spec fn usize_spec(&self) -> usize {
        self.0
    }

    open spec fn str_spec(&self) -> Seq<char> {
        Seq::empty()
    }

    fn usize_value(&self) -> (r: usize) {
        self.0
    }

    fn str_value(&self) -> (r: &'static str) {
        proof {
            reveal_strlit("");
        }
        ""
    }
}

impl GenTrait for GenConstRefStaticStr {
    open spec fn usize_spec(&self) -> usize {
        0
    }

    open spec fn str_spec(&self) -> Seq<char> {
        self.0@
    }

    fn usize_value(&self) -> (r: usize) {
        0
    }

    fn str_value(&self) -> (r: &'static str) {
        self.0
    }
}

/// An entry of the list: `gen` stands for `key`; `tail` is the rest.
#[derive(Debug)]
pub struct ICons<Gen, Tail> {
    pub key: Key,
    pub gen: Gen,
    pub tail: Tail,
}

/// The empty list.
#[derive(Clone, Copy, Debug)]
pub struct Nil;

/// A list in which what stands for a key can be looked up: the first entry
/// for the key, or, where there is none, what stands for a plain type.
pub trait Lookup {
    spec fn usize_of(&self, key: Key) -> usize;

    spec fn str_of(&self, key: Key) -> Seq<char>;

    fn lookup_usize(&self, key: Key) -> (r: usize)
        ensures
            r == self.usize_of(key),
    ;

    fn lookup_str(&self, key: Key) -> (r: &'static str)
        ensures
            r@ == self.str_of(key),
    ;
}

impl Lookup for Nil {
    open spec fn usize_of(&self, key: Key) -> usize {
        0
    }

    open spec fn str_of(&self, key: Key) -> Seq<char> {
        Seq::empty()
    }

    fn lookup_usize(&self, key: Key) -> (r: usize) {
        0
    }

    fn lookup_str(&self, key: Key) -> (r: &'static str) {
        proof {
            reveal_strlit("");
        }
        ""
    }
}

impl<Gen: GenTrait, Tail: Lookup> Lookup for ICons<Gen, Tail> {
    open spec fn usize_of(&self, key: Key) -> usize {
        if self.key == key {
            self.gen.usize_spec()
        } else {
            self.tail.usize_of(key)
        }
    }

    open spec fn str_of(&self, key: Key) -> Seq<char> {
        if self.key == key {
            self.gen.str_spec()
        } else {
            self.tail.str_of(key)
        }
    }

    fn lookup_usize(&self, key: Key) -> (r: usize) {
        if self.key.equal(&key) {
            self.gen.usize_value()
        } else {
            self.tail.lookup_usize(key)
        }
    }

    fn lookup_str(&self, key: Key) -> (r: &'static str) {
        if self.key.equal(&key) {
            self.gen.str_value()
        } else {
            self.tail.lookup_str(key)
        }
    }
}

/// What a list offers at its head: the constants of its first entry (`0`
/// and `""` for the empty list).
pub trait CommonImpls {
    spec fn head_usize(&self) -> usize;

    spec fn head_str(&self) -> Seq<char>;

    fn usize_value(&self) -> (r: usize)
        ensures
            r == self.head_usize(),
    ;

    fn str_value(&self) -> (r: &'static str)
        ensures
            r@ == self.head_str(),
    ;
}

impl CommonImpls for Nil {
    open spec fn head_usize(&self) -> usize {
        0
    }

    open spec fn head_str(&self) -> Seq<char> {
        Seq::empty()
    }

    fn usize_value(&self) -> (r: usize) {
        0
    }

    fn str_value(&self) -> (r: &'static str) {
        proof {
            reveal_strlit("");
        }
        ""
    }
}

impl<Gen: GenTrait, Tail> CommonImpls for ICons<Gen, Tail> {
    open spec fn head_usize(&self) -> usize {
        self.gen.usize_spec()
    }

    open spec fn head_str(&self) -> Seq<char> {
        self.gen.str_spec()
    }

    fn usize_value(&self) -> (r: usize) {
        self.gen.usize_value()
    }

    fn str_value(&self) -> (r: &'static str) {
        self.gen.str_value()
    }
}

/// A message read from the head of a list.
pub trait ConstParamTest<Ci: CommonImpls> {
    fn msg(ci: &Ci) -> (r: &'static str)
        ensures
            r@ == ci.head_str(),
    ;
}

/// Reads the string constant at the head of a list as its message.
pub struct DebugMsg;

impl<Ci: CommonImpls> ConstParamTest<Ci> for DebugMsg {
    fn msg(ci: &Ci) -> (r: &'static str) {
        ci.str_value()
    }
}

/// A method: what its arguments are, what stands for each of its generic
/// parameters given the arguments, and what it returns.
pub trait Method: Sized {
    type Args;

    type Hint;

    type Output;

    spec fn hint_spec(args: Self::Args) -> Self::Hint;

    spec fn method_spec(self, args: Self::Args) -> Self::Output;

    fn hint(args: &Self::Args) -> (r: Self::Hint)
        ensures
            r == Self::hint_spec(*args),
    ;

    fn method(self, args: Self::Args) -> (r: Self::Output)
        ensures
            r == self.method_spec(args),
    ;
}

/// The hint of `example` for its arguments: the third argument stands for
/// `C` and is made into a `B`, the second stands for `B` and is made into a
/// `u64`, and `A` is the constant that the first carries.
pub type ExampleHint = ICons<GenType, ICons<GenType, ICons<GenConstUSize, Nil>>>;

impl Method for () {
    type Args = (GenConstUSize, u64, u32);

    type Hint = ExampleHint;

    type Output = Nil;

    open spec fn hint_spec(args: (GenConstUSize, u64, u32)) -> ExampleHint {
        ICons {
            key: Key::C,
            gen: GenType { name: "IntoSelfIntoU64" },
            tail: ICons {
                key: Key::B,
                gen: GenType { name: "IntoU64" },
                tail: ICons { key: Key::A, gen: args.0, tail: Nil },
            },
        }
    }

    open spec fn method_spec(self, args: (GenConstUSize, u64, u32)) -> Nil {
        Nil
    }

    fn hint(args: &(GenConstUSize, u64, u32)) -> (r: ExampleHint) {
        ICons {
            key: Key::C,
            gen: GenType { name: "IntoSelfIntoU64" },
            tail: ICons {
                key: Key::B,
                gen: GenType { name: "IntoU64" },
                tail: ICons { key: Key::A, gen: args.0, tail: Nil },
            },
        }
    }

    fn method(self, args: (GenConstUSize, u64, u32)) -> (r: Nil) {
        example(self, Nil)
    }
}

/// The `usize` constant that the hint of `example` gives for `A` is the one
/// that its first argument carries.
pub fn example_constant(args: &(GenConstUSize, u64, u32)) -> (r: usize)
    ensures
        r == args.0.0,
{
    let h = <() as Method>::hint(args);
    h.lookup_usize(Key::A)
}

/// A call of method `M` on its receiver.
pub struct CallOwn<M: Method>(pub M, pub std::marker::PhantomData<(M, M)>);

impl<M: Method> CallOwn<M> {
    /// Calls the method with `args`.
    pub fn call_once(self, args: M::Args) -> (r: M::Output)
        ensures
            r == self.0.method_spec(args),
    {
        self.0.method(args)
    }
}

/// The method `example`: takes its arguments and returns the empty list.
pub fn example(a: (), args: Nil) -> (r: Nil)
    ensures
        r == Nil,
{
    Nil
}

/// A marker that ties a call to the type it is made for.
pub fn hint<A>() -> (r: std::marker::PhantomData<(A, A)>)
    ensures
        r == std::marker::PhantomData::<(A, A)>,
{
    std::marker::PhantomData
}

} // verus!
