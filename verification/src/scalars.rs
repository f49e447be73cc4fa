//! Capability coverage for fixed-size value types.
//!
//! Every type here is duplicated by copying a bounded number of bytes, so
//! its ordinary copy is already constant-time and `cheap_clone` is that
//! copy.

use vstd::prelude::*;

use crate::CheapClone;

verus! {

impl CheapClone for bool {
    fn cheap_clone(&self) -> (r: bool)
        ensures
            r == *self,
    {
        *self
    }
}

impl CheapClone for char {
    fn cheap_clone(&self) -> (r: char)
        ensures
            r == *self,
    {
        *self
    }
}

impl CheapClone for u8 {
    fn cheap_clone(&self) -> (r: u8)
        ensures
            r == *self,
    {
        *self
    }
}

impl CheapClone for u16 {
    fn cheap_clone(&self) -> (r: u16)
        ensures
            r == *self,
    {
        *self
    }
}

impl CheapClone for u32 {
    fn cheap_clone(&self) -> (r: u32)
        ensures
            r == *self,
    {
        *self
    }
}

impl CheapClone for u64 {
    fn cheap_clone(&self) -> (r: u64)
        ensures
            r == *self,
    {
        *self
    }
}

impl CheapClone for u128 {
    fn cheap_clone(&self) -> (r: u128)
        ensures
            r == *self,
    {
        *self
    }
}

impl CheapClone for usize {
    fn cheap_clone(&self) -> (r: usize)
        ensures
            r == *self,
    {
        *self
    }
}

impl CheapClone for i8 {
    fn cheap_clone(&self) -> (r: i8)
        ensures
            r == *self,
    {
        *self
    }
}

impl CheapClone for i16 {
    fn cheap_clone(&self) -> (r: i16)
        ensures
            r == *self,
    {
        *self
    }
}

impl CheapClone for i32 {
    fn cheap_clone(&self) -> (r: i32)
        ensures
            r == *self,
    {
        *self
    }
}

impl CheapClone for i64 {
    fn cheap_clone(&self) -> (r: i64)
        ensures
            r == *self,
    {
        *self
    }
}

impl CheapClone for i128 {
    fn cheap_clone(&self) -> (r: i128)
        ensures
            r == *self,
    {
        *self
    }
}

impl CheapClone for isize {
    fn cheap_clone(&self) -> (r: isize)
        ensures
            r == *self,
    {
        *self
    }
}

impl<'a> CheapClone for &'a str {
    fn cheap_clone(&self) -> (r: &'a str)
        ensures
            r == *self,
    {
        *self
    }
}

impl<T: Copy, const N: usize> CheapClone for [T; N] {
    fn cheap_clone(&self) -> (r: [T; N])
        ensures
            r == *self,
    {
        *self
    }
}

} // verus!
