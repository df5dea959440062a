//! Fixed-width unsigned outputs for distance counts.
//!
//! A distance is computed as a machine count and then delivered in a
//! caller-chosen unsigned integer width. The only failure in the whole
//! library is a count that does not fit in the chosen width.

use vstd::prelude::*;

verus! {

/// A count that did not fit in the requested output width.
#[derive(Clone, Copy, Debug, PartialEq, Eq, Structural)]
pub struct OverflowError {
    /// The count that failed to fit.
    pub value: usize,
    /// The largest value the requested width can hold.
    pub limit: u128,
}

/// An unsigned integer width that can carry a distance count.
///
/// Implemented for `u8`, `u16`, `u32`, `u64`, `u128` and `usize`, so a
/// caller picks the width of the result. Conversion from a count fails
/// exactly when the count exceeds the width's largest value.
pub trait UInt: Sized {
    /// The largest count this width can hold.
    spec fn max_value() -> nat;

    /// The count a value of this width stands for.
    spec fn as_nat(self) -> nat;

    /// Converts a count into this width.
    ///
    /// Returns `Ok` exactly when the count fits, and otherwise an
    /// [`OverflowError`] naming the count and the width's limit.
    fn from_count(c: usize) -> (r: Result<Self, OverflowError>)
        ensures
            (c as nat <= Self::max_value()) == (r is Ok),
            (r matches Ok(v) ==> v.as_nat() == c as nat),
            (r matches Err(e) ==> e.value == c && e.limit as nat == Self::max_value()),
    ;
}

impl UInt for u8 {
    open spec fn max_value() -> nat {
        u8::MAX as nat
    }

    open spec fn as_nat(self) -> nat {
        self as nat
    }

    fn from_count(c: usize) -> (r: Result<Self, OverflowError>) {
        if c <= u8::MAX as usize {
            Ok(c as u8)
        } else {
            Err(OverflowError { value: c, limit: u8::MAX as u128 })
        }
    }
}

impl UInt for u16 {
    open spec fn max_value() -> nat {
        u16::MAX as nat
    }

    open spec fn as_nat(self) -> nat {
        self as nat
    }

    fn from_count(c: usize) -> (r: Result<Self, OverflowError>) {
        if c <= u16::MAX as usize {
            Ok(c as u16)
        } else {
            Err(OverflowError { value: c, limit: u16::MAX as u128 })
        }
    }
}

impl UInt for u32 {
    open spec fn max_value() -> nat {
        u32::MAX as nat
    }

    open spec fn as_nat(self) -> nat {
        self as nat
    }

    fn from_count(c: usize) -> (r: Result<Self, OverflowError>) {
        if c <= u32::MAX as usize {
            Ok(c as u32)
        } else {
            Err(OverflowError { value: c, limit: u32::MAX as u128 })
        }
    }
}

impl UInt for u64 {
    open spec fn max_value() -> nat {
        u64::MAX as nat
    }

    open spec fn as_nat(self) -> nat {
        self as nat
    }

    fn from_count(c: usize) -> (r: Result<Self, OverflowError>) {
        Ok(c as u64)
    }
}

impl UInt for u128 {
    open spec fn max_value() -> nat {
        u128::MAX as nat
    }

    open spec fn as_nat(self) -> nat {
        self as nat
    }

    fn from_count(c: usize) -> (r: Result<Self, OverflowError>) {
        Ok(c as u128)
    }
}

impl UInt for usize {
    open spec fn max_value() -> nat {
        usize::MAX as nat
    }

    open spec fn as_nat(self) -> nat {
        self as nat
    }

    fn from_count(c: usize) -> (r: Result<Self, OverflowError>) {
        Ok(c)
    }
}

} // verus!
