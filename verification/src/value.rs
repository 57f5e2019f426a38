//! Coercion of heterogeneous numeric inputs into the one transmission
//! magnitude (an unsigned 64-bit count) that every write command carries.
//!
//! An input is coercible exactly when its mathematical value lies in
//! `0 ..= u64::MAX`; a negative or overflowing input has no transmission
//! representation and is excluded by the recording methods' preconditions.

use vstd::prelude::*;

use crate::command::ScopeCommand;
use crate::command::spec_write;

verus! {

/// A numeric representation that can feed an instrument.
///
/// `as_int` is the mathematical value of the input; `to_value` is the
/// value-preserving coercion to the transmission magnitude, defined exactly
/// on the inputs whose mathematical value fits in a `u64`.
pub trait ToValue: Copy + Sized {
    /// The mathematical value of this input.
    spec fn as_int(&self) -> int;

    /// Coerce to the transmission magnitude, preserving the value.
    fn to_value(&self) -> (r: u64)
        requires
            0 <= self.as_int() <= u64::MAX as int,
        ensures
            r as int == self.as_int(),
    ;
}

impl ToValue for u8 {
    open spec fn as_int(&self) -> int {
        *self as int
    }

    fn to_value(&self) -> (r: u64) {
        *self as u64
    }
}

impl ToValue for u16 {
    open spec fn as_int(&self) -> int {
        *self as int
    }

    fn to_value(&self) -> (r: u64) {
        *self as u64
    }
}

impl ToValue for u32 {
    open spec fn as_int(&self) -> int {
        *self as int
    }

    fn to_value(&self) -> (r: u64) {
        *self as u64
    }
}

impl ToValue for u64 {
    open spec fn as_int(&self) -> int {
        *self as int
    }

    fn to_value(&self) -> (r: u64) {
        *self
    }
}

impl ToValue for u128 {
    open spec fn as_int(&self) -> int {
        *self as int
    }

    fn to_value(&self) -> (r: u64) {
        *self as u64
    }
}

impl ToValue for usize {
    open spec fn as_int(&self) -> int {
        *self as int
    }

    fn to_value(&self) -> (r: u64) {
        *self as u64
    }
}

impl ToValue for i8 {
    open spec fn as_int(&self) -> int {
        *self as int
    }

    fn to_value(&self) -> (r: u64) {
        *self as u64
    }
}

impl ToValue for i16 {
    open spec fn as_int(&self) -> int {
        *self as int
    }

    fn to_value(&self) -> (r: u64) {
        *self as u64
    }
}

impl ToValue for i32 {
    open spec fn as_int(&self) -> int {
        *self as int
    }

    fn to_value(&self) -> (r: u64) {
        *self as u64
    }
}

impl ToValue for i64 {
    open spec fn as_int(&self) -> int {
        *self as int
    }

    fn to_value(&self) -> (r: u64) {
        *self as u64
    }
}

impl ToValue for i128 {
    open spec fn as_int(&self) -> int {
        *self as int
    }

    fn to_value(&self) -> (r: u64) {
        *self as u64
    }
}

impl ToValue for isize {
    open spec fn as_int(&self) -> int {
        *self as int
    }

    fn to_value(&self) -> (r: u64) {
        *self as u64
    }
}

/// Coercion is value-preserving across representations: two coercible inputs
/// of any two numeric representations with the same mathematical value yield
/// the same write command against the same metric identity.
pub proof fn lemma_coercion_value_preserving<M, A: ToValue, B: ToValue>(metric: M, a: A, b: B)
    requires
        a.as_int() == b.as_int(),
        0 <= a.as_int() <= u64::MAX as int,
    ensures
        spec_write(metric, a.as_int()) == spec_write(metric, b.as_int()),
{
}

} // verus!
