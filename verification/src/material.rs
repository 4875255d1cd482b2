//! The filament material: an open-set enumeration over strings.
//!
//! A fixed set of known variants each decodes from exactly one canonical raw
//! string; every other raw string decodes, without loss and without failure,
//! into the catch-all variant. Encoding a known variant yields its canonical
//! form; encoding the catch-all yields the preserved raw string unchanged.

use vstd::prelude::*;
use crate::text::str_eq;

verus! {

/// A filament material: known variants plus a catch-all that preserves any
/// unrecognized raw string losslessly.
#[derive(Clone, Debug)]
pub enum FilamentMaterial {
    PLA,
    PLAPlus,
    ABS,
    PETG,
    TPU,
    Nylon,
    PC,
    ASA,
    Unspecified,
    Other(String),
}

/// The mathematical model of a material: the catch-all carries the raw
/// string's characters.
pub enum MaterialModel {
    PLA,
    PLAPlus,
    ABS,
    PETG,
    TPU,
    Nylon,
    PC,
    ASA,
    Unspecified,
    Other(Seq<char>),
}

impl View for FilamentMaterial {
    type V = MaterialModel;

    open spec fn view(&self) -> MaterialModel {
        match self {
            FilamentMaterial::PLA => MaterialModel::PLA,
            FilamentMaterial::PLAPlus => MaterialModel::PLAPlus,
            FilamentMaterial::ABS => MaterialModel::ABS,
            FilamentMaterial::PETG => MaterialModel::PETG,
            FilamentMaterial::TPU => MaterialModel::TPU,
            FilamentMaterial::Nylon => MaterialModel::Nylon,
            FilamentMaterial::PC => MaterialModel::PC,
            FilamentMaterial::ASA => MaterialModel::ASA,
            FilamentMaterial::Unspecified => MaterialModel::Unspecified,
            FilamentMaterial::Other(s) => MaterialModel::Other(s@),
        }
    }
}

/// The single canonical raw form of each known variant; the catch-all encodes
/// to exactly the raw string it preserves.
pub open spec fn material_encoded(m: MaterialModel) -> Seq<char> {
    match m {
        MaterialModel::PLA => "PLA"@,
        MaterialModel::PLAPlus => "PLAPlus"@,
        MaterialModel::ABS => "ABS"@,
        MaterialModel::PETG => "PETG"@,
        MaterialModel::TPU => "TPU"@,
        MaterialModel::Nylon => "Nylon"@,
        MaterialModel::PC => "PC"@,
        MaterialModel::ASA => "ASA"@,
        MaterialModel::Unspecified => "Unspecified"@,
        MaterialModel::Other(s) => s,
    }
}

/// Decoding matches the raw string against each canonical form in a fixed
/// priority order; anything unmatched becomes the catch-all. Total: no raw
/// string is ever rejected.
pub open spec fn material_decoded(s: Seq<char>) -> MaterialModel {
    if s == "PLA"@ {
        MaterialModel::PLA
    } else if s == "PLAPlus"@ {
        MaterialModel::PLAPlus
    } else if s == "ABS"@ {
        MaterialModel::ABS
    } else if s == "PETG"@ {
        MaterialModel::PETG
    } else if s == "TPU"@ {
        MaterialModel::TPU
    } else if s == "Nylon"@ {
        MaterialModel::Nylon
    } else if s == "PC"@ {
        MaterialModel::PC
    } else if s == "ASA"@ {
        MaterialModel::ASA
    } else if s == "Unspecified"@ {
        MaterialModel::Unspecified
    } else {
        MaterialModel::Other(s)
    }
}

/// Whether a raw string is the canonical form of some known variant.
pub open spec fn material_raw_is_known(s: Seq<char>) -> bool {
    !(material_decoded(s) is Other)
}

/// The values the decoder can actually produce: every known variant, and a
/// catch-all only around a raw string that no known variant claims.
pub open spec fn material_reachable(m: MaterialModel) -> bool {
    match m {
        MaterialModel::Other(s) => !material_raw_is_known(s),
        _ => true,
    }
}

impl FilamentMaterial {
    /// Total decoder: never fails, preserves unrecognized raw strings.
    pub fn from_str(s: &str) -> (m: FilamentMaterial)
        ensures
            m@ == material_decoded(s@),
    {
        if str_eq(s, "PLA") {
            FilamentMaterial::PLA
        } else if str_eq(s, "PLAPlus") {
            FilamentMaterial::PLAPlus
        } else if str_eq(s, "ABS") {
            FilamentMaterial::ABS
        } else if str_eq(s, "PETG") {
            FilamentMaterial::PETG
        } else if str_eq(s, "TPU") {
            FilamentMaterial::TPU
        } else if str_eq(s, "Nylon") {
            FilamentMaterial::Nylon
        } else if str_eq(s, "PC") {
            FilamentMaterial::PC
        } else if str_eq(s, "ASA") {
            FilamentMaterial::ASA
        } else if str_eq(s, "Unspecified") {
            FilamentMaterial::Unspecified
        } else {
            FilamentMaterial::Other(s.to_owned())
        }
    }

    /// Total encoder to the wire form.
    pub fn encode(&self) -> (r: String)
        ensures
            r@ == material_encoded(self@),
    {
        match self {
            FilamentMaterial::PLA => "PLA".to_owned(),
            FilamentMaterial::PLAPlus => "PLAPlus".to_owned(),
            FilamentMaterial::ABS => "ABS".to_owned(),
            FilamentMaterial::PETG => "PETG".to_owned(),
            FilamentMaterial::TPU => "TPU".to_owned(),
            FilamentMaterial::Nylon => "Nylon".to_owned(),
            FilamentMaterial::PC => "PC".to_owned(),
            FilamentMaterial::ASA => "ASA".to_owned(),
            FilamentMaterial::Unspecified => "Unspecified".to_owned(),
            FilamentMaterial::Other(s) => s.clone(),
        }
    }

    /// An exact copy, field for field.
    pub fn duplicate(&self) -> (r: FilamentMaterial)
        ensures
            r@ == self@,
    {
        match self {
            FilamentMaterial::PLA => FilamentMaterial::PLA,
            FilamentMaterial::PLAPlus => FilamentMaterial::PLAPlus,
            FilamentMaterial::ABS => FilamentMaterial::ABS,
            FilamentMaterial::PETG => FilamentMaterial::PETG,
            FilamentMaterial::TPU => FilamentMaterial::TPU,
            FilamentMaterial::Nylon => FilamentMaterial::Nylon,
            FilamentMaterial::PC => FilamentMaterial::PC,
            FilamentMaterial::ASA => FilamentMaterial::ASA,
            FilamentMaterial::Unspecified => FilamentMaterial::Unspecified,
            FilamentMaterial::Other(s) => FilamentMaterial::Other(s.clone()),
        }
    }
}

impl PartialEq for FilamentMaterial {
    /// Structural equality: same variant, and for the catch-all the same
    /// preserved raw string.
    fn eq(&self, other: &Self) -> (r: bool) {
        match (self, other) {
            (FilamentMaterial::PLA, FilamentMaterial::PLA) => true,
            (FilamentMaterial::PLAPlus, FilamentMaterial::PLAPlus) => true,
            (FilamentMaterial::ABS, FilamentMaterial::ABS) => true,
            (FilamentMaterial::PETG, FilamentMaterial::PETG) => true,
            (FilamentMaterial::TPU, FilamentMaterial::TPU) => true,
            (FilamentMaterial::Nylon, FilamentMaterial::Nylon) => true,
            (FilamentMaterial::PC, FilamentMaterial::PC) => true,
            (FilamentMaterial::ASA, FilamentMaterial::ASA) => true,
            (FilamentMaterial::Unspecified, FilamentMaterial::Unspecified) => true,
            (FilamentMaterial::Other(a), FilamentMaterial::Other(b)) => *a == *b,
            _ => false,
        }
    }
}

impl vstd::std_specs::cmp::PartialEqSpecImpl for FilamentMaterial {
    open spec fn obeys_eq_spec() -> bool {
        true
    }

    open spec fn eq_spec(&self, other: &Self) -> bool {
        self@ == other@
    }
}

/// Round-trip law, raw side: encoding whatever a raw string decodes to yields
/// that raw string back, for every raw string.
pub proof fn lemma_material_encode_decode(s: Seq<char>)
    ensures
        material_encoded(material_decoded(s)) == s,
{
}

/// Round-trip law, value side: decoding a value's encoding yields the value
/// back, for every value the decoder can produce.
pub proof fn lemma_material_decode_encode(m: MaterialModel)
    requires
        material_reachable(m),
    ensures
        material_decoded(material_encoded(m)) == m,
{
    reveal_strlit("PLA");
    reveal_strlit("PLAPlus");
    reveal_strlit("ABS");
    reveal_strlit("PETG");
    reveal_strlit("TPU");
    reveal_strlit("Nylon");
    reveal_strlit("PC");
    reveal_strlit("ASA");
    reveal_strlit("Unspecified");
    // The canonical forms are pairwise distinct: they differ in length or in
    // one of their first two characters.
    assert("PLA"@.len() == 3);
    assert("PLAPlus"@.len() == 7);
    assert("ABS"@.len() == 3);
    assert("PETG"@.len() == 4);
    assert("TPU"@.len() == 3);
    assert("Nylon"@.len() == 5);
    assert("PC"@.len() == 2);
    assert("ASA"@.len() == 3);
    assert("Unspecified"@.len() == 11);
    assert("PLA"@[0] == 'P');
    assert("ABS"@[0] == 'A');
    assert("TPU"@[0] == 'T');
    assert("ASA"@[0] == 'A');
    assert("ABS"@[1] == 'B');
    assert("ASA"@[1] == 'S');
}

} // verus!
