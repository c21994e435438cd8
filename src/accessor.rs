//! Mapping a function over the part of a value that an accessor focuses on:
//! the value is rotated so that the part is in focus, the function is
//! applied, and the result is restored to the shape of the value.
use std::marker::PhantomData;
use vstd::prelude::*;

verus! {

/// Something with a name.
pub trait NameTrait {
    spec fn name_spec(&self) -> Seq<char>;

    fn name(&self) -> (r: &'static str)
        ensures
            r@ == self.name_spec(),
    ;
}

/// A name.
#[derive(Clone, Copy, Debug)]
pub struct Name(pub &'static str);

impl NameTrait for Name {
    open spec fn name_spec(&self) -> Seq<char> {
        self.0@
    }

    fn name(&self) -> (r: &'static str) {
        self.0
    }
}

/// The accessor that focuses on the whole value.
pub struct IdentName;

/// The accessor that focuses through a reference.
pub struct RefName;

/// A pair whose first part is not in focus.
pub struct Unfocused;

/// A pair whose first part is in focus.
pub struct FocusingOnFirst;

/// An accessor named by `Id` over values of type `Extra`.
pub struct Meta<Id, Extra>(pub PhantomData<(Id, Extra)>);

/// The identity accessor over `Field`.
pub type IdentM<Field> = Meta<IdentName, Field>;

/// The accessor over references to what `Ground` accesses.
pub type RefM<Ground> = Meta<RefName, Ground>;

/// A value of type `T` marked as `N`.
pub struct Marker<N, T>(pub T, pub PhantomData<N>);

/// An accessor: the name that identifies it and the type of the part it
/// focuses on.
pub trait Accessor {
    type Field;

    spec fn id_spec() -> Seq<char>;

    fn id() -> (r: Name)
        ensures
            r.0@ == Self::id_spec(),
    ;
}

/// An accessor that turns a value (`Basic`) into the shape with its part in
/// focus (`Rotation`) and back, without changing it.
pub trait Transformable: Accessor {
    type Basic;

    type Rotation;

    spec fn rotate_spec(a: Self::Basic) -> Self::Rotation;

    spec fn restore_spec(a: Self::Rotation) -> Self::Basic;

    fn rotate(a: Self::Basic) -> (r: Self::Rotation)
        ensures
            r == Self::rotate_spec(a),
            Self::restore_spec(r) == a,
    ;

    fn restore(a: Self::Rotation) -> (r: Self::Basic)
        ensures
            r == Self::restore_spec(a),
            Self::rotate_spec(r) == a,
    ;
}

impl<Field> Accessor for Meta<IdentName, Field> {
    type Field = Field;

    open spec fn id_spec() -> Seq<char> {
        "Ident"@
    }

    fn id() -> (r: Name) {
        proof {
            reveal_strlit("Ident");
        }
        Name("Ident")
    }
}

impl<Field> Transformable for Meta<IdentName, Field> {
    type Basic = Field;

    type Rotation = Field;

    open spec fn rotate_spec(a: Field) -> Field {
        a
    }

    open spec fn restore_spec(a: Field) -> Field {
        a
    }

    fn rotate(a: Field) -> (r: Field) {
        a
    }

    fn restore(a: Field) -> (r: Field) {
        a
    }
}

impl<Field> Meta<IdentName, Field> {
    /// `f` applied to the whole value.
    pub fn mapping<B, F: FnOnce(Field) -> B>(f: F, a: Field) -> (r: B)
        requires
            f.requires((a,)),
        ensures
            f.ensures((a,), r),
    {
        let rotation = Self::rotate(a);
        f(rotation)
    }
}

impl<Ground> Accessor for Meta<RefName, Ground> {
    type Field = Ground;

    open spec fn id_spec() -> Seq<char> {
        "Ref"@
    }

    fn id() -> (r: Name) {
        proof {
            reveal_strlit("Ref");
        }
        Name("Ref")
    }
}

impl<Field> Meta<RefName, Meta<IdentName, Field>> {
    /// `f` applied to the value behind the reference.
    pub fn mapping<'a, B, F: FnOnce(&'a Field) -> &'a B>(f: F, a: &'a Field) -> (r: &'a B)
        requires
            f.requires((a,)),
        ensures
            f.ensures((a,), r),
    {
        f(a)
    }
}

impl<P, Q> Accessor for Marker<FocusingOnFirst, (P, Q)> {
    type Field = P;

    open spec fn id_spec() -> Seq<char> {
        "Marker of pair"@
    }

    fn id() -> (r: Name) {
        proof {
            reveal_strlit("Marker of pair");
        }
        Name("Marker of pair")
    }
}

impl<P, Q> Transformable for Marker<FocusingOnFirst, (P, Q)> {
    type Basic = Marker<Unfocused, (P, Q)>;

    type Rotation = Marker<FocusingOnFirst, (P, Q)>;

    open spec fn rotate_spec(a: Marker<Unfocused, (P, Q)>) -> Marker<FocusingOnFirst, (P, Q)> {
        Marker(a.0, PhantomData)
    }

    open spec fn restore_spec(a: Marker<FocusingOnFirst, (P, Q)>) -> Marker<Unfocused, (P, Q)> {
        Marker(a.0, PhantomData)
    }

    fn rotate(a: Marker<Unfocused, (P, Q)>) -> (r: Marker<FocusingOnFirst, (P, Q)>) {
        Marker(a.0, PhantomData)
    }

    fn restore(a: Marker<FocusingOnFirst, (P, Q)>) -> (r: Marker<Unfocused, (P, Q)>) {
        Marker(a.0, PhantomData)
    }
}

impl<P, Q> Marker<FocusingOnFirst, (P, Q)> {
    /// `f` applied with the first part in focus; the result is restored to
    /// an unfocused pair.
    pub fn mapping<B, F: FnOnce(Marker<FocusingOnFirst, (P, Q)>) -> Marker<FocusingOnFirst, (B, Q)>>(
        f: F,
        a: Marker<Unfocused, (P, Q)>,
    ) -> (r: Marker<Unfocused, (B, Q)>)
        requires
            f.requires((Marker::<FocusingOnFirst, (P, Q)>(a.0, PhantomData),)),
        ensures
            exists|m: Marker<FocusingOnFirst, (B, Q)>|
                f.ensures((Marker::<FocusingOnFirst, (P, Q)>(a.0, PhantomData),), m) && r.0 == m.0,
    {
        let rotation = Self::rotate(a);
        let output = f(rotation);
        let r = <Marker<FocusingOnFirst, (B, Q)> as Transformable>::restore(output);
        r
    }
}

} // verus!
