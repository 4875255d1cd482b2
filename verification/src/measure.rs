//! Measurement newtypes: integral scalars tagged with a unit.
//!
//! Each wraps a raw unsigned integer. Equality and ordering are bit-for-bit
//! on the underlying integer, and no unit conversion is ever performed.
//! Construction cannot fail; the types expose no arithmetic of their own —
//! derived values are computed by their consumers.

use vstd::prelude::*;

verus! {

/// A money amount in the smallest currency unit.
#[derive(Clone, Copy, Debug, PartialEq, Eq, Structural, PartialOrd, Ord)]
pub struct Cents(pub u32);

/// A mass in whole grams.
#[derive(Clone, Copy, Debug, PartialEq, Eq, Structural, PartialOrd, Ord)]
pub struct Grams(pub u16);

/// A temperature in whole degrees Celsius.
#[derive(Clone, Copy, Debug, PartialEq, Eq, Structural, PartialOrd, Ord)]
pub struct Celsius(pub u16);

} // verus!
