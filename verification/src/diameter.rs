//! The filament diameter: an open-set enumeration over integers.
//!
//! The raw form is the diameter in hundredths of a millimeter (175 = 1.75 mm).
//! Two known variants decode from their canonical raw values; every other raw
//! value decodes, without loss and without failure, into the catch-all.

use vstd::prelude::*;

verus! {

/// A filament diameter in hundredths of a millimeter: known variants plus a
/// catch-all that preserves any unrecognized raw value losslessly.
#[derive(Clone, Copy, Debug, PartialEq, Eq, Structural, PartialOrd, Ord)]
pub enum FilamentDiameter {
    D175,
    D285,
    Other(u16),
}

/// The single canonical raw value of each known variant; the catch-all
/// encodes to exactly the raw value it preserves.
pub open spec fn diameter_encoded(d: FilamentDiameter) -> u16 {
    match d {
        FilamentDiameter::D175 => 175u16,
        FilamentDiameter::D285 => 285u16,
        FilamentDiameter::Other(v) => v,
    }
}

/// Decoding matches the raw value against each canonical value; anything
/// unmatched becomes the catch-all. Total: no raw value is ever rejected.
pub open spec fn diameter_decoded(v: u16) -> FilamentDiameter {
    if v == 175 {
        FilamentDiameter::D175
    } else if v == 285 {
        FilamentDiameter::D285
    } else {
        FilamentDiameter::Other(v)
    }
}

/// The values the decoder can actually produce: every known variant, and a
/// catch-all only around a raw value that no known variant claims.
pub open spec fn diameter_reachable(d: FilamentDiameter) -> bool {
    match d {
        FilamentDiameter::Other(v) => v != 175 && v != 285,
        _ => true,
    }
}

impl FilamentDiameter {
    /// Total decoder. The `Result` shape matches the wire boundary that calls
    /// it; decoding itself never fails.
    pub fn try_from(v: u16) -> (r: Result<FilamentDiameter, &'static str>)
        ensures
            r == Ok::<FilamentDiameter, &'static str>(diameter_decoded(v)),
    {
        if v == 175 {
            Ok(FilamentDiameter::D175)
        } else if v == 285 {
            Ok(FilamentDiameter::D285)
        } else {
            Ok(FilamentDiameter::Other(v))
        }
    }

    /// Total encoder to the wire form.
    pub fn encode(&self) -> (v: u16)
        ensures
            v == diameter_encoded(*self),
    {
        match self {
            FilamentDiameter::D175 => 175,
            FilamentDiameter::D285 => 285,
            FilamentDiameter::Other(v) => *v,
        }
    }
}

/// Round-trip law, raw side: encoding whatever a raw value decodes to yields
/// that raw value back, for every raw value.
pub proof fn lemma_diameter_encode_decode(v: u16)
    ensures
        diameter_encoded(diameter_decoded(v)) == v,
{
}

/// Round-trip law, value side: decoding a value's encoding yields the value
/// back, for every value the decoder can produce.
pub proof fn lemma_diameter_decode_encode(d: FilamentDiameter)
    requires
        diameter_reachable(d),
    ensures
        diameter_decoded(diameter_encoded(d)) == d,
{
}

} // verus!
