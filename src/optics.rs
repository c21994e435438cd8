//! Lenses onto the fields of a record and a prism onto one variant of an
//! enum, with the laws that make them well behaved.
use vstd::prelude::*;

verus! {

/// A postal address.
pub struct Address {
    pub city: String,
    pub street: String,
}

/// A value that can be copied exactly.
pub trait ExactClone: Sized {
    fn duplicate(&self) -> (r: Self)
        ensures
            r == *self,
    ;
}

impl ExactClone for String {
    fn duplicate(&self) -> (r: String) {
        self.clone()
    }
}

impl ExactClone for Address {
    fn duplicate(&self) -> (r: Address) {
        Address { city: self.city.duplicate(), street: self.street.duplicate() }
    }
}

/// A user with a name, an age and an address.
pub struct User {
    pub name: String,
    pub age: u32,
    pub address: Address,
}

/// Whether a user is active, with a status message.
pub enum Status {
    Active(String),
    Inactive,
}

/// A view of one part `A` of a whole `S`.
pub trait Lens<S, A>: Sized {
    spec fn get_spec(&self, source: S) -> A;

    spec fn set_spec(&self, source: S, value: A) -> S;

    fn get<'a>(&self, source: &'a S) -> (r: &'a A)
        ensures
            *r == self.get_spec(*source),
    ;

    fn set(self, source: S, value: A) -> (r: S)
        ensures
            r == self.set_spec(source, value),
    ;
}

/// The laws of a well-behaved lens: reading what was written gives it back,
/// writing what was read changes nothing, and the second of two writes wins.
pub open spec fn lawful<S, A, L: Lens<S, A>>(l: L) -> bool {
    &&& forall|s: S, a: A| #[trigger] l.get_spec(l.set_spec(s, a)) == a
    &&& forall|s: S| #[trigger] l.set_spec(s, l.get_spec(s)) == s
    &&& forall|s: S, a: A, b: A| #[trigger] l.set_spec(l.set_spec(s, a), b) == l.set_spec(s, b)
}

/// A view of the payload of one variant `A` of an enum `S`.
pub trait Prism<S, A>: Sized {
    spec fn preview_spec(&self, source: S) -> Option<A>;

    spec fn review_spec(&self, value: A) -> S;

    fn preview<'a>(&self, source: &'a S) -> (r: Option<&'a A>)
        ensures
            match r {
                Some(a) => self.preview_spec(*source) == Some(*a),
                None => self.preview_spec(*source) is None,
            },
    ;

    fn review(self, value: A) -> (r: S)
        ensures
            r == self.review_spec(value),
    ;
}

pub struct NameLens;

pub struct AgeLens;

pub struct AddressLens;

pub struct CityLens;

pub struct StreetLens;

pub struct ActiveStatusPrism;

impl Lens<User, String> for NameLens {
    open spec fn get_spec(&self, source: User) -> String {
        source.name
    }

    open spec fn set_spec(&self, source: User, value: String) -> User {
        User { name: value, ..source }
    }

    fn get<'a>(&self, source: &'a User) -> (r: &'a String) {
        &source.name
    }

    fn set(self, source: User, value: String) -> (r: User) {
        let mut source = source;
        source.name = value;
        source
    }
}

impl Lens<User, u32> for AgeLens {
    open spec fn get_spec(&self, source: User) -> u32 {
        source.age
    }

    open spec fn set_spec(&self, source: User, value: u32) -> User {
        User { age: value, ..source }
    }

    fn get<'a>(&self, source: &'a User) -> (r: &'a u32) {
        &source.age
    }

    fn set(self, source: User, value: u32) -> (r: User) {
        let mut source = source;
        source.age = value;
        source
    }
}

impl Lens<User, Address> for AddressLens {
    open spec fn get_spec(&self, source: User) -> Address {
        source.address
    }

    open spec fn set_spec(&self, source: User, value: Address) -> User {
        User { address: value, ..source }
    }

    fn get<'a>(&self, source: &'a User) -> (r: &'a Address) {
        &source.address
    }

    fn set(self, source: User, value: Address) -> (r: User) {
        let mut source = source;
        source.address = value;
        source
    }
}

impl Lens<Address, String> for CityLens {
    open spec fn get_spec(&self, source: Address) -> String {
        source.city
    }

    open spec fn set_spec(&self, source: Address, value: String) -> Address {
        Address { city: value, ..source }
    }

    fn get<'a>(&self, source: &'a Address) -> (r: &'a String) {
        &source.city
    }

    fn set(self, source: Address, value: String) -> (r: Address) {
        let mut source = source;
        source.city = value;
        source
    }
}

impl Lens<Address, String> for StreetLens {
    open spec fn get_spec(&self, source: Address) -> String {
        source.street
    }

    open spec fn set_spec(&self, source: Address, value: String) -> Address {
        Address { street: value, ..source }
    }

    fn get<'a>(&self, source: &'a Address) -> (r: &'a String) {
        &source.street
    }

    fn set(self, source: Address, value: String) -> (r: Address) {
        let mut source = source;
        source.street = value;
        source
    }
}

impl Prism<Status, String> for ActiveStatusPrism {
    open spec fn preview_spec(&self, source: Status) -> Option<String> {
        match source {
            Status::Active(s) => Some(s),
            Status::Inactive => None,
        }
    }

    open spec fn review_spec(&self, value: String) -> Status {
        Status::Active(value)
    }

    fn preview<'a>(&self, source: &'a Status) -> (r: Option<&'a String>) {
        match source {
            Status::Active(s) => Some(s),
            Status::Inactive => None,
        }
    }

    fn review(self, value: String) -> (r: Status) {
        Status::Active(value)
    }
}

/// The lens `l2` applied inside the part `I` that `l1` views.
pub struct ComposedLens<L1, L2, I>(pub L1, pub L2, pub std::marker::PhantomData<I>);

impl<S, I: 'static + ExactClone, B, L1: Lens<S, I>, L2: Lens<I, B>> Lens<S, B> for ComposedLens<L1, L2, I> {
    open spec fn get_spec(&self, source: S) -> B {
        self.1.get_spec(self.0.get_spec(source))
    }

    open spec fn set_spec(&self, source: S, value: B) -> S {
        self.0.set_spec(source, self.1.set_spec(self.0.get_spec(source), value))
    }

    fn get<'a>(&self, source: &'a S) -> (r: &'a B) {
        self.1.get(self.0.get(source))
    }

    fn set(self, source: S, value: B) -> (r: S) {
        let intermediate = self.0.get(&source).duplicate();
        let new_intermediate = self.1.set(intermediate, value);
        self.0.set(source, new_intermediate)
    }
}

/// `l2` applied inside the part that `l1` views.
pub fn compose<L1, L2, I>(l1: L1, l2: L2) -> (r: ComposedLens<L1, L2, I>)
    ensures
        r.0 == l1,
        r.1 == l2,
{
    ComposedLens(l1, l2, std::marker::PhantomData)
}

/// The field lenses obey the lens laws.
pub proof fn lemma_field_lenses_lawful()
    ensures
        lawful::<User, String, NameLens>(NameLens),
        lawful::<User, u32, AgeLens>(AgeLens),
        lawful::<User, Address, AddressLens>(AddressLens),
        lawful::<Address, String, CityLens>(CityLens),
        lawful::<Address, String, StreetLens>(StreetLens),
{
}

/// The composition of two lawful lenses obeys the lens laws.
pub proof fn lemma_composition_lawful<S, I: 'static + ExactClone, B, L1: Lens<S, I>, L2: Lens<I, B>>(
    c: ComposedLens<L1, L2, I>,
)
    requires
        lawful::<S, I, L1>(c.0),
        lawful::<I, B, L2>(c.1),
    ensures
        lawful::<S, B, ComposedLens<L1, L2, I>>(c),
{
    assert forall|s: S, b: B| #[trigger] c.get_spec(c.set_spec(s, b)) == b by {
        let i2 = c.1.set_spec(c.0.get_spec(s), b);
        assert(c.0.get_spec(c.0.set_spec(s, i2)) == i2);
    }
    assert forall|s: S| #[trigger] c.set_spec(s, c.get_spec(s)) == s by {
        let i = c.0.get_spec(s);
        assert(c.1.set_spec(i, c.1.get_spec(i)) == i);
    }
    assert forall|s: S, a: B, b: B| #[trigger] c.set_spec(c.set_spec(s, a), b) == c.set_spec(s, b) by {
        let i = c.0.get_spec(s);
        let i2 = c.1.set_spec(i, a);
        let s2 = c.0.set_spec(s, i2);
        assert(c.0.get_spec(s2) == i2);
        assert(c.1.set_spec(i2, b) == c.1.set_spec(i, b));
        assert(c.0.set_spec(s2, c.1.set_spec(i, b)) == c.0.set_spec(s, c.1.set_spec(i, b)));
    }
}

/// Reviewing a value and previewing the result gives the value back.
pub proof fn lemma_prism_round_trip(p: ActiveStatusPrism, v: String)
    ensures
        p.preview_spec(p.review_spec(v)) == Some(v),
{
}

} // verus!
