//! Keeping a value or only its type: a representation decides, through its
//! wrapper, whether the operands built from it carry their values along or
//! only mark their types.
use std::marker::PhantomData;
use vstd::prelude::*;

verus! {

/// How a representation carries a value of type `Impl`.
pub trait Wrap<Impl> {
    type Output;

    spec fn wrap_spec(imp: Impl) -> Self::Output;

    fn wrap(imp: Impl) -> (r: Self::Output)
        ensures
            r == Self::wrap_spec(imp),
    ;
}

/// Carries the value itself.
pub struct Direct;

/// Carries only the type of the value.
pub struct Phantom;

impl<Impl> Wrap<Impl> for Direct {
    type Output = Impl;

    open spec fn wrap_spec(imp: Impl) -> Impl {
        imp
    }

    fn wrap(imp: Impl) -> (r: Impl) {
        imp
    }
}

impl<Impl> Wrap<Impl> for Phantom {
    type Output = PhantomData<Box<Impl>>;

    open spec fn wrap_spec(imp: Impl) -> PhantomData<Box<Impl>> {
        PhantomData
    }

    fn wrap(imp: Impl) -> (r: PhantomData<Box<Impl>>) {
        PhantomData
    }
}

/// A representation of a value of type `T`, with the way `W` in which it
/// carries values.
pub trait Repr {
    type T;

    type W;
}

/// A known value.
pub struct Value<T>(pub T);

/// A value of which only the type is known.
pub struct Undef<T>(pub PhantomData<Box<T>>);

impl<T> Repr for Value<T> {
    type T = T;

    type W = Direct;
}

impl<T> Repr for Undef<T> {
    type T = T;

    type W = Phantom;
}

/// `imp` carried the way that `R` carries values.
pub fn wrap<R: Repr, Impl>(imp: Impl) -> (r: <R::W as Wrap<Impl>>::Output) where
    R::W: Wrap<Impl>,

    ensures
        r == <R::W as Wrap<Impl>>::wrap_spec(imp),
{
    <R::W as Wrap<Impl>>::wrap(imp)
}

/// The negation of an operand, carried the way its representation says.
pub struct Not<X>(pub X);

/// Negation that keeps the operand's way of carrying values.
pub trait OpNot: Repr + Sized {
    type Output;

    spec fn not_spec(self) -> Self::Output;

    fn not(self) -> (r: Self::Output)
        ensures
            r == self.not_spec(),
    ;
}

impl<T> OpNot for Value<T> {
    type Output = Not<Value<T>>;

    open spec fn not_spec(self) -> Not<Value<T>> {
        Not(self)
    }

    fn not(self) -> (r: Not<Value<T>>) {
        Not(wrap::<Value<T>, Value<T>>(self))
    }
}

impl<T> OpNot for Undef<T> {
    type Output = Not<PhantomData<Box<Undef<T>>>>;

    open spec fn not_spec(self) -> Not<PhantomData<Box<Undef<T>>>> {
        Not(PhantomData)
    }

    fn not(self) -> (r: Not<PhantomData<Box<Undef<T>>>>) {
        Not(wrap::<Undef<T>, Undef<T>>(self))
    }
}

} // verus!
