//! Capability coverage for owning indirection wrappers.
//!
//! A reference-counted pointer is duplicated by bumping its count, so
//! `Rc` and `Arc` bear the capability for any pointee. A `Box` owns its
//! pointee exclusively, so duplicating the box duplicates the pointee:
//! the box bears the capability only when the pointee does.

use vstd::prelude::*;

use std::rc::Rc;
use std::sync::Arc;

use crate::CheapClone;

verus! {

/// Relies on `Rc::clone` (the `Clone` impl of `std::rc::Rc`): the clone
/// is another pointer to the same allocation, so it holds the same value.
#[verifier::external_body]
fn rc_clone<T>(p: &Rc<T>) -> (r: Rc<T>)
    ensures
        r == *p,
{
    Rc::clone(p)
}

/// Relies on `Arc::clone` (the `Clone` impl of `std::sync::Arc`): the
/// clone is another pointer to the same allocation, so it holds the same
/// value.
#[verifier::external_body]
fn arc_clone<T>(p: &Arc<T>) -> (r: Arc<T>)
    ensures
        r == *p,
{
    Arc::clone(p)
}

impl<T> CheapClone for Rc<T> {
    fn cheap_clone(&self) -> (r: Rc<T>)
        ensures
            r == *self,
    {
        rc_clone(self)
    }
}

impl<T> CheapClone for Arc<T> {
    fn cheap_clone(&self) -> (r: Arc<T>)
        ensures
            r == *self,
    {
        arc_clone(self)
    }
}

impl<T: CheapClone> CheapClone for Box<T> {
    fn cheap_clone(&self) -> (r: Box<T>)
        ensures
            r == *self,
    {
        Box::new((**self).cheap_clone())
    }
}

} // verus!
