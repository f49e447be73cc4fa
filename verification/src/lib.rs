//! A marker capability for values that can be duplicated in constant time.
//!
//! The [`CheapClone`] trait is a promise layered on top of [`Clone`]: a type
//! implements it only when its duplication cost does not scale with the size
//! of the data it holds (a scalar copy, a pointer copy, or a reference-count
//! bump). Call sites that use `cheap_clone` instead of `clone` can then be
//! audited for performance by searching for the capability's name alone.

use vstd::prelude::*;

mod buffers;
mod pointers;
mod scalars;
mod wrappers;

verus! {

/// Types whose duplication runs in constant time.
///
/// As a rule of thumb, only constant-time `Clone` implementations should
/// also implement `CheapClone`: a reference-counted pointer or a small
/// fixed-size value qualifies, a growable vector or an owned string does not.
/// That cost bound is a convention upheld by each implementer; what is
/// checked is the result: `cheap_clone` returns a value equal to the
/// original.
pub trait CheapClone: Clone {
    /// Returns a copy of the value, equal to the original.
    fn cheap_clone(&self) -> (r: Self)
        ensures
            r == *self,
    ;
}

/// Duplication is idempotent: two results of `cheap_clone` on the same
/// original value are mutually equal, whatever sharing state the calls
/// left behind.
pub proof fn lemma_cheap_clone_idempotent<T: CheapClone>(v: T, first: T, second: T)
    requires
        call_ensures(T::cheap_clone, (&v,), first),
        call_ensures(T::cheap_clone, (&v,), second),
    ensures
        first == second,
{
}

/// Duplicating an optional value preserves presence or absence, and a
/// present value is duplicated to one equal to the original's contents.
pub proof fn lemma_cheap_clone_option<T: CheapClone>(o: Option<T>, r: Option<T>)
    requires
        call_ensures(<Option<T> as CheapClone>::cheap_clone, (&o,), r),
    ensures
        o is Some <==> r is Some,
        o matches Some(x) ==> (r matches Some(y) && x == y),
{
}

/// Duplicating a result preserves which variant is held, and the
/// duplicate's contents equal the original's.
pub proof fn lemma_cheap_clone_result<T: CheapClone, E: CheapClone>(
    v: Result<T, E>,
    r: Result<T, E>,
)
    requires
        call_ensures(<Result<T, E> as CheapClone>::cheap_clone, (&v,), r),
    ensures
        v is Ok <==> r is Ok,
        v matches Ok(x) ==> (r matches Ok(y) && x == y),
        v matches Err(x) ==> (r matches Err(y) && x == y),
{
}


} // verus!
