//! The retailer: an open-set enumeration over strings.
//!
//! One known variant decodes from its single canonical raw string; every
//! other raw string decodes, without loss and without failure, into the
//! catch-all variant.

use vstd::prelude::*;
use crate::text::str_eq;

verus! {

/// A retailer: known variants plus a catch-all that preserves any
/// unrecognized raw string losslessly.
#[derive(Clone, Debug)]
pub enum Retailer {
    Amazon,
    Other(String),
}

/// The mathematical model of a retailer: the catch-all carries the raw
/// string's characters.
pub enum RetailerModel {
    Amazon,
    Other(Seq<char>),
}

impl View for Retailer {
    type V = RetailerModel;

    open spec fn view(&self) -> RetailerModel {
        match self {
            Retailer::Amazon => RetailerModel::Amazon,
            Retailer::Other(s) => RetailerModel::Other(s@),
        }
    }
}

/// The single canonical raw form of the known variant; the catch-all encodes
/// to exactly the raw string it preserves.
pub open spec fn retailer_encoded(r: RetailerModel) -> Seq<char> {
    match r {
        RetailerModel::Amazon => "Amazon"@,
        RetailerModel::Other(s) => s,
    }
}

/// Decoding matches the raw string against the canonical form; anything
/// unmatched becomes the catch-all. Total: no raw string is ever rejected.
pub open spec fn retailer_decoded(s: Seq<char>) -> RetailerModel {
    if s == "Amazon"@ {
        RetailerModel::Amazon
    } else {
        RetailerModel::Other(s)
    }
}

/// The values the decoder can actually produce: the known variant, and a
/// catch-all only around a raw string that is not canonical.
pub open spec fn retailer_reachable(r: RetailerModel) -> bool {
    match r {
        RetailerModel::Other(s) => s != "Amazon"@,
        _ => true,
    }
}

impl Retailer {
    /// Total decoder: never fails, preserves unrecognized raw strings.
    pub fn from_str(s: &str) -> (r: Retailer)
        ensures
            r@ == retailer_decoded(s@),
    {
        if str_eq(s, "Amazon") {
            Retailer::Amazon
        } else {
            Retailer::Other(s.to_owned())
        }
    }

    /// Total encoder to the wire form.
    pub fn encode(&self) -> (r: String)
        ensures
            r@ == retailer_encoded(self@),
    {
        match self {
            Retailer::Amazon => "Amazon".to_owned(),
            Retailer::Other(s) => s.clone(),
        }
    }

    /// An exact copy, field for field.
    pub fn duplicate(&self) -> (r: Retailer)
        ensures
            r@ == self@,
    {
        match self {
            Retailer::Amazon => Retailer::Amazon,
            Retailer::Other(s) => Retailer::Other(s.clone()),
        }
    }
}

impl PartialEq for Retailer {
    /// Structural equality: same variant, and for the catch-all the same
    /// preserved raw string.
    fn eq(&self, other: &Self) -> (r: bool) {
        match (self, other) {
            (Retailer::Amazon, Retailer::Amazon) => true,
            (Retailer::Other(a), Retailer::Other(b)) => *a == *b,
            _ => false,
        }
    }
}

impl vstd::std_specs::cmp::PartialEqSpecImpl for Retailer {
    open spec fn obeys_eq_spec() -> bool {
        true
    }

    open spec fn eq_spec(&self, other: &Self) -> bool {
        self@ == other@
    }
}

/// Round-trip law, raw side: encoding whatever a raw string decodes to yields
/// that raw string back, for every raw string.
pub proof fn lemma_retailer_encode_decode(s: Seq<char>)
    ensures
        retailer_encoded(retailer_decoded(s)) == s,
{
}

/// Round-trip law, value side: decoding a value's encoding yields the value
/// back, for every value the decoder can produce.
pub proof fn lemma_retailer_decode_encode(r: RetailerModel)
    requires
        retailer_reachable(r),
    ensures
        retailer_decoded(retailer_encoded(r)) == r,
{
}

} // verus!
