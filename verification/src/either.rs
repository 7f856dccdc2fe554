//! A sum type with two cases, used where two code paths produce structurally
//! different but logically interchangeable values (response bodies,
//! continuations) that must be exposed as one concrete type.

use vstd::prelude::*;

verus! {

/// Sum type with two cases: `Left` and `Right`, used if a value can be one of
/// two distinct types.
#[derive(Debug, Clone, Copy)]
pub enum Either<L, R> {
    /// A value of type `L`.
    Left(L),
    /// A value of type `R`.
    Right(R),
}

/// What [`Either::into_inner`] returns: the payload, from whichever case
/// holds it.
pub open spec fn spec_into_inner<L>(e: Either<L, L>) -> L {
    match e {
        Either::Left(left) => left,
        Either::Right(right) => right,
    }
}

impl<L> Either<L, L> {
    /// Convert [`Either`] into the inner type, if both `Left` and `Right` are
    /// of the same type.
    pub fn into_inner(self) -> (inner: L)
        ensures
            inner == spec_into_inner(self),
    {
        match self {
            Either::Left(left) => left,
            Either::Right(right) => right,
        }
    }
}

/// Unwrapping is the exact inverse of wrapping: a payload put into either
/// case comes back out unchanged. This is what makes the two cases
/// logically interchangeable for a caller that only wants the payload.
pub proof fn lemma_into_inner_inverts<L>(x: L)
    ensures
        spec_into_inner(Either::Left(x)) == x,
        spec_into_inner(Either::Right(x)) == x,
{
}

} // verus!
