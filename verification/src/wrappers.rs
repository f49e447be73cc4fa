//! Capability propagation through generic container wrappers.
//!
//! An optional value, a success-or-failure result, or a two-variant
//! either-of value adds only a tag around its contents, so it bears the
//! capability exactly when every inner type it may hold bears it. The
//! duplication preserves which variant is held and duplicates the
//! contents through their own `cheap_clone`.

use vstd::prelude::*;

use crate::CheapClone;

verus! {

/// Declares `either::Either` to the verifier. The enum's two variants,
/// `Left(L)` and `Right(R)`, are public, so verified code can match on a
/// value and build one directly.
#[verifier::external_type_specification]
#[verifier::reject_recursive_types(L)]
#[verifier::reject_recursive_types(R)]
pub struct ExEither<L, R>(either::Either<L, R>);

impl<T: CheapClone> CheapClone for Option<T> {
    fn cheap_clone(&self) -> (r: Option<T>)
        ensures
            r == *self,
    {
        match self {
            Some(v) => Some(v.cheap_clone()),
            None => None,
        }
    }
}

impl<T: CheapClone, E: CheapClone> CheapClone for Result<T, E> {
    fn cheap_clone(&self) -> (r: Result<T, E>)
        ensures
            r == *self,
    {
        match self {
            Ok(v) => Ok(v.cheap_clone()),
            Err(e) => Err(e.cheap_clone()),
        }
    }
}

impl<L: CheapClone, R: CheapClone> CheapClone for either::Either<L, R> {
    fn cheap_clone(&self) -> (r: either::Either<L, R>)
        ensures
            r == *self,
    {
        match self {
            either::Either::Left(l) => either::Either::Left(l.cheap_clone()),
            either::Either::Right(r) => either::Either::Right(r.cheap_clone()),
        }
    }
}

} // verus!
