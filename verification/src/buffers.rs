//! Capability coverage for shared immutable buffer types.
//!
//! `bytes::Bytes` is an immutable byte buffer whose clone is a shallow
//! copy of the handle (at most a reference-count bump), and
//! `smol_str::SmolStr` is a small-string-optimized string whose clone is
//! an inline copy or a reference-count bump. Both are constant-time, so
//! both bear the capability.

use vstd::prelude::*;

use crate::CheapClone;

verus! {

/// Declares `bytes::Bytes` to the verifier; its values are carried
/// through opaquely.
#[verifier::external_type_specification]
#[verifier::external_body]
pub struct ExBytes(bytes::Bytes);

/// Declares `smol_str::SmolStr` to the verifier; its values are carried
/// through opaquely.
#[verifier::external_type_specification]
#[verifier::external_body]
pub struct ExSmolStr(smol_str::SmolStr);

/// Relies on `bytes::Bytes::clone`: the clone is a shallow copy viewing
/// the same bytes, so it is equal to the original.
#[verifier::external_body]
fn bytes_clone(b: &bytes::Bytes) -> (r: bytes::Bytes)
    ensures
        r == *b,
{
    b.clone()
}

/// Relies on `smol_str::SmolStr::clone`: the clone is a bit copy of an
/// inline string or a new handle to the same heap allocation, so it is
/// equal to the original.
#[verifier::external_body]
fn smol_str_clone(s: &smol_str::SmolStr) -> (r: smol_str::SmolStr)
    ensures
        r == *s,
{
    s.clone()
}

impl CheapClone for bytes::Bytes {
    fn cheap_clone(&self) -> (r: bytes::Bytes)
        ensures
            r == *self,
    {
        bytes_clone(self)
    }
}

impl CheapClone for smol_str::SmolStr {
    fn cheap_clone(&self) -> (r: smol_str::SmolStr)
        ensures
            r == *self,
    {
        smol_str_clone(self)
    }
}

} // verus!
