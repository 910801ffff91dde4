//! Types whose values lie between a least and a greatest one.

use vstd::prelude::*;

use crate::discrete::{Byte, Nibble, SInt, UInt};

verus! {

/// A type with a least and a greatest value.
pub trait Ranged: Sized {
    fn max_value() -> Self;

    fn min_value() -> Self;
}

impl Ranged for Nibble {
    fn max_value() -> (r: Self)
        ensures
            r.value == 15,
            r.wf(),
    {
        Nibble::new(15)
    }

    fn min_value() -> (r: Self)
        ensures
            r.value == 0,
            r.wf(),
    {
        Nibble::new(0)
    }
}

impl Ranged for Byte {
    fn max_value() -> (r: Self)
        ensures
            r.value == u8::MAX,
    {
        Byte::new(u8::MAX)
    }

    fn min_value() -> (r: Self)
        ensures
            r.value == 0,
    {
        Byte::new(0)
    }
}

impl Ranged for UInt {
    fn max_value() -> (r: Self)
        ensures
            r.value == u32::MAX,
    {
        UInt::new(u32::MAX)
    }

    fn min_value() -> (r: Self)
        ensures
            r.value == 0,
    {
        UInt::new(0)
    }
}

impl Ranged for SInt {
    fn max_value() -> (r: Self)
        ensures
            r.value == i32::MAX,
    {
        SInt::new(i32::MAX)
    }

    fn min_value() -> (r: Self)
        ensures
            r.value == i32::MIN,
    {
        SInt::new(i32::MIN)
    }
}

} // verus!
