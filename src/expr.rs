//! Tracking how a value was computed: an operation on a tracked value
//! records a node instead of computing, while operations on plain values
//! still compute.
use vstd::prelude::*;

verus! {

/// A unary operation.
#[derive(Clone, Copy, Debug, PartialEq, Eq, Structural)]
pub enum UnaryOp {
    Not,
    Neg,
}

/// A binary operation.
#[derive(Clone, Copy, Debug, PartialEq, Eq, Structural)]
pub enum BinaryOp {
    Add,
    Sub,
    Mul,
    Div,
    Rem,
    Shl,
    Shr,
    BitAnd,
    BitOr,
    BitXor,
}

/// How a tracked value was built.
#[derive(Debug)]
pub enum Term {
    /// A value that is not known.
    Undef,
    /// A known plain value.
    Value(i32),
    Unary(UnaryOp, Box<Term>),
    Binary(BinaryOp, Box<Term>, Box<Term>),
}

/// A tracked value: not a number but the record of how it would be computed.
#[derive(Debug)]
pub struct TLtriv {
    pub term: Term,
}

/// A wrapper that lets an operation on its content be recorded or computed.
#[derive(Debug)]
pub struct Fix<T>(pub T);

/// An operand, seen as a term.
pub trait GetType: Sized {
    spec fn term_spec(self) -> Term;

    fn into_term(self) -> (r: Term)
        ensures
            r == self.term_spec(),
    ;
}

/// A plain value, which operations compute rather than record.
pub trait IsNotTLtriv: GetType {

}

impl GetType for TLtriv {
    open spec fn term_spec(self) -> Term {
        self.term
    }

    fn into_term(self) -> (r: Term) {
        self.term
    }
}

impl GetType for i32 {
    open spec fn term_spec(self) -> Term {
        Term::Value(self)
    }

    fn into_term(self) -> (r: Term) {
        Term::Value(self)
    }
}

impl IsNotTLtriv for i32 {

}

/// A tracked value that is not known.
pub fn undef() -> (r: TLtriv)
    ensures
        r.term == Term::Undef,
{
    TLtriv { term: Term::Undef }
}

impl TLtriv {
    /// Records `!self`.
    pub fn not(self) -> (r: TLtriv)
        ensures
            r.term == Term::Unary(UnaryOp::Not, Box::new(self.term)),
    {
        TLtriv { term: Term::Unary(UnaryOp::Not, Box::new(self.term)) }
    }

    /// Records `-self`.
    pub fn neg(self) -> (r: TLtriv)
        ensures
            r.term == Term::Unary(UnaryOp::Neg, Box::new(self.term)),
    {
        TLtriv { term: Term::Unary(UnaryOp::Neg, Box::new(self.term)) }
    }
}

impl Fix<TLtriv> {
    /// Records `self op rhs`.
    pub fn binary<R: GetType>(self, op: BinaryOp, rhs: R) -> (r: TLtriv)
        ensures
            r.term == Term::Binary(op, Box::new(self.0.term), Box::new(rhs.term_spec())),
    {
        let rt = rhs.into_term();
        TLtriv { term: Term::Binary(op, Box::new(self.0.term), Box::new(rt)) }
    }
}

/// `op` applied to the plain values `a` and `b`, as Rust's `i32` operators
/// compute it; `None` where the operator would panic.
pub open spec fn eval_binary(op: BinaryOp, a: i32, b: i32) -> Option<i32> {
    match op {
        BinaryOp::Add => a.checked_add(b),
        BinaryOp::Sub => a.checked_sub(b),
        BinaryOp::Mul => a.checked_mul(b),
        BinaryOp::Div => a.checked_div(b),
        BinaryOp::Rem => a.checked_rem(b),
        BinaryOp::Shl => if 0 <= b < 32 {
            Some(a.wrapping_shl(b as u32))
        } else {
            None
        },
        BinaryOp::Shr => if 0 <= b < 32 {
            Some(a.wrapping_shr(b as u32))
        } else {
            None
        },
        BinaryOp::BitAnd => Some(a & b),
        BinaryOp::BitOr => Some(a | b),
        BinaryOp::BitXor => Some(a ^ b),
    }
}

impl Fix<i32> {
    /// Records `self op rhs`, where `rhs` is tracked.
    pub fn binary_tracked(self, op: BinaryOp, rhs: TLtriv) -> (r: TLtriv)
        ensures
            r.term == Term::Binary(op, Box::new(Term::Value(self.0)), Box::new(rhs.term)),
    {
        TLtriv { term: Term::Binary(op, Box::new(Term::Value(self.0)), Box::new(rhs.term)) }
    }

    /// Computes `self op rhs`; `None` where the operator would panic.
    pub fn binary_plain(self, op: BinaryOp, rhs: i32) -> (r: Option<i32>)
        ensures
            r == eval_binary(op, self.0, rhs),
    {
        let a = self.0;
        match op {
            BinaryOp::Add => a.checked_add(rhs),
            BinaryOp::Sub => a.checked_sub(rhs),
            BinaryOp::Mul => a.checked_mul(rhs),
            BinaryOp::Div => a.checked_div(rhs),
            BinaryOp::Rem => a.checked_rem(rhs),
            BinaryOp::Shl => if 0 <= rhs && rhs < 32 {
                Some(a.wrapping_shl(rhs as u32))
            } else {
                None
            },
            BinaryOp::Shr => if 0 <= rhs && rhs < 32 {
                Some(a.wrapping_shr(rhs as u32))
            } else {
                None
            },
            BinaryOp::BitAnd => Some(a & rhs),
            BinaryOp::BitOr => Some(a | rhs),
            BinaryOp::BitXor => Some(a ^ rhs),
        }
    }
}

} // verus!
