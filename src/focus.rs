//! Focusing on one part of a value: the part is taken out together with the
//! rest ("the side"), can be read, replaced or mapped, and the whole is then
//! rebuilt from the two.
use vstd::prelude::*;

verus! {

/// The identity of a type that can be focused on.
pub struct Ident {
    pub name: &'static str,
}

/// A type with a name.
pub trait IdentT {
    spec fn ident_spec(&self) -> Seq<char>;

    fn ident(&self) -> (r: &'static str)
        ensures
            r@ == self.ident_spec(),
    ;
}

impl IdentT for Ident {
    open spec fn ident_spec(&self) -> Seq<char> {
        self.name@
    }

    fn ident(&self) -> (r: &'static str) {
        self.name
    }
}

/// A path to a named field.
pub struct Field {
    pub name: &'static str,
}

/// A way into a value.
pub trait Path {
    spec fn path_spec(&self) -> Seq<char>;

    fn path_name(&self) -> (r: &'static str)
        ensures
            r@ == self.path_spec(),
    ;
}

impl Path for Field {
    open spec fn path_spec(&self) -> Seq<char> {
        self.name@
    }

    fn path_name(&self) -> (r: &'static str) {
        self.name
    }
}

/// A focused part together with the rest of the value.
pub struct Focus<T>(pub T);

/// Access to the focused part.
pub trait FocusMapOp: Sized {
    type T;

    spec fn focused(&self) -> Self::T;

    fn focus_take(self) -> (r: Self::T)
        ensures
            r == self.focused(),
    ;

    fn focus_ref(&self) -> (r: &Self::T)
        ensures
            *r == self.focused(),
    ;

    /// Replaces the focused part, keeping the rest; returns the old part.
    fn focus_mut(&mut self, part: Self::T) -> (r: Self::T)
        ensures
            r == old(self).focused(),
            final(self).focused() == part,
    ;
}

impl<A, Side> FocusMapOp for Focus<(A, Side)> {
    type T = A;

    open spec fn focused(&self) -> A {
        self.0.0
    }

    fn focus_take(self) -> (r: A) {
        self.0.0
    }

    fn focus_ref(&self) -> (r: &A) {
        &self.0.0
    }

    fn focus_mut(&mut self, part: A) -> (r: A) {
        let mut part = part;
        std::mem::swap(&mut self.0.0, &mut part);
        part
    }
}

impl<A, Side> Focus<(A, Side)> {
    /// The rest of the value.
    pub open spec fn side(&self) -> Side {
        self.0.1
    }

    /// Applies `f` to the focused part, keeping the rest.
    pub fn focus_map<B, F: FnOnce(A) -> B>(self, f: F) -> (r: Focus<(B, Side)>)
        requires
            f.requires((self.0.0,)),
        ensures
            f.ensures((self.0.0,), r.0.0),
            r.0.1 == self.0.1,
    {
        let (a, side) = self.0;
        Focus((f(a), side))
    }
}

/// A value in which `P` leads to a part that can be focused on.
pub trait FocusOp<P: Path>: Sized {
    type T;

    type Side;

    spec fn focus_spec(self) -> (Self::T, Self::Side);

    fn focus(self) -> (r: Focus<(Self::T, Self::Side)>)
        ensures
            r.0 == self.focus_spec(),
    ;
}

/// A focus from which the whole value of type `Fc` can be rebuilt.
pub trait RebuildFromFocus<P: Path, Fc: FocusOp<P>>: Sized {
    spec fn rebuild_spec(self) -> Fc;

    fn rebuild_from_focus(self) -> (r: Fc)
        ensures
            r == self.rebuild_spec(),
    ;
}

/// A named value.
pub struct Tag<V> {
    pub name: String,
    pub value: V,
}

impl<V> Tag<V> {
    /// The identity of `Tag`.
    pub fn ident() -> (r: Ident)
        ensures
            r.name@ == "Tag"@,
    {
        proof {
            reveal_strlit("Tag");
        }
        Ident { name: "Tag" }
    }

    /// The path to the name of a `Tag`.
    pub fn name_path() -> (r: Field)
        ensures
            r.name@ == "name"@,
    {
        proof {
            reveal_strlit("name");
        }
        Field { name: "name" }
    }
}

impl<V> FocusOp<Field> for Tag<V> {
    type T = String;

    type Side = V;

    open spec fn focus_spec(self) -> (String, V) {
        (self.name, self.value)
    }

    fn focus(self) -> (r: Focus<(String, V)>) {
        Focus((self.name, self.value))
    }
}

impl<V> RebuildFromFocus<Field, Tag<V>> for Focus<(String, V)> {
    open spec fn rebuild_spec(self) -> Tag<V> {
        Tag { name: self.0.0, value: self.0.1 }
    }

    fn rebuild_from_focus(self) -> (r: Tag<V>) {
        let (name, value) = self.0;
        Tag { name, value }
    }
}

/// Focusing on the name of a tag and rebuilding gives the tag back.
pub proof fn lemma_tag_focus_round_trip<V>(t: Tag<V>)
    ensures
        Focus(t.focus_spec()).rebuild_spec() == t,
{
}

} // verus!
