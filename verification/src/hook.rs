//! The derived-field consistency hook and the write-then-patch protocol.
//!
//! Every successful write of a record must be followed by a recomputation of
//! the derived price-per-kilogram field from the just-written authoritative
//! values, and by a second, targeted write of that field alone, filtered by
//! the record's identity. The two steps are not atomic: if the patch fails
//! after the persist succeeded, the record is durable with a stale derived
//! field — an explicit, named inconsistency window — and that failure is
//! surfaced distinctly, because recovery is to retry the patch, not the
//! insert.

use vstd::prelude::*;
use crate::measure::{Cents, Grams};
use crate::product::Product;

verus! {

/// The derived field as a function of price and weight: price divided by
/// weight, scaled to a kilogram, rounded to the nearest integer with ties
/// rounded half away from zero, and saturated at the largest representable
/// value. A zero weight makes the quotient undefined; the documented policy
/// is the sentinel zero, never a crash.
pub open spec fn price_per_kg_of(price: u32, weight: u16) -> u32 {
    if weight == 0 {
        0u32
    } else {
        let scaled = (price as int) * 1000;
        let quotient = scaled / (weight as int);
        let remainder = scaled % (weight as int);
        let rounded: int = if 2 * remainder >= weight as int {
            quotient + 1
        } else {
            quotient
        };
        if rounded > u32::MAX as int {
            u32::MAX
        } else {
            rounded as u32
        }
    }
}

/// Recomputes the derived field from the authoritative price and weight.
/// Total: a zero weight yields the sentinel zero rather than a failure.
pub fn compute_price_per_kg(price: Cents, weight: Grams) -> (r: Cents)
    ensures
        r.0 == price_per_kg_of(price.0, weight.0),
{
    if weight.0 == 0 {
        return Cents(0);
    }
    let scaled: u64 = (price.0 as u64) * 1000;
    let w: u64 = weight.0 as u64;
    let quotient: u64 = scaled / w;
    let remainder: u64 = scaled % w;
    assert(quotient <= scaled) by (nonlinear_arith)
        requires
            w >= 1,
            quotient == scaled / w,
            scaled >= 0,
    ;
    let rounded: u64 = if 2 * remainder >= w {
        quotient + 1
    } else {
        quotient
    };
    if rounded > u32::MAX as u64 {
        Cents(u32::MAX)
    } else {
        Cents(rounded as u32)
    }
}

/// Failures of the two-step write protocol, distinguished because their
/// recovery differs.
#[derive(Clone, Copy, Debug, PartialEq, Eq, Structural)]
pub enum WriteError {
    /// The initial persist failed: no record exists, and the whole operation
    /// may be retried.
    StoreWriteFailure,
    /// The persist succeeded but the derived-field patch failed: the record
    /// is durable with a stale derived field until a later patch succeeds,
    /// so a naive retry of the insert would be wrong.
    DerivedFieldPatchFailure,
}

/// The phase of one write-then-patch sequence for a single record.
#[derive(Clone, Copy, Debug, PartialEq, Eq, Structural)]
pub enum WritePhase {
    /// Waiting for the store to acknowledge the initial persist.
    Inserting,
    /// The record is durable; waiting for the store to acknowledge the
    /// targeted patch of the derived field.
    Patching,
    /// Both steps acknowledged: the write is complete and consistent.
    Complete,
    /// Terminal failure; the record is durable exactly when the error is
    /// `DerivedFieldPatchFailure`.
    Failed(WriteError),
}

/// The protocol's transition relation: what one store acknowledgement does
/// to the phase. Terminal phases never move again.
pub open spec fn next_phase(phase: WritePhase, store_ok: bool) -> WritePhase {
    match phase {
        WritePhase::Inserting => if store_ok {
            WritePhase::Patching
        } else {
            WritePhase::Failed(WriteError::StoreWriteFailure)
        },
        WritePhase::Patching => if store_ok {
            WritePhase::Complete
        } else {
            WritePhase::Failed(WriteError::DerivedFieldPatchFailure)
        },
        WritePhase::Complete => WritePhase::Complete,
        WritePhase::Failed(e) => WritePhase::Failed(e),
    }
}

/// Advances the protocol by one store acknowledgement. Total and pure: the
/// next phase is a function of the current phase and the store's answer
/// alone.
pub fn advance_write(phase: WritePhase, store_ok: bool) -> (next: WritePhase)
    ensures
        next == next_phase(phase, store_ok),
{
    match phase {
        WritePhase::Inserting => {
            if store_ok {
                WritePhase::Patching
            } else {
                WritePhase::Failed(WriteError::StoreWriteFailure)
            }
        },
        WritePhase::Patching => {
            if store_ok {
                WritePhase::Complete
            } else {
                WritePhase::Failed(WriteError::DerivedFieldPatchFailure)
            }
        },
        WritePhase::Complete => WritePhase::Complete,
        WritePhase::Failed(e) => WritePhase::Failed(e),
    }
}

/// The caller-visible outcome of a finished sequence: success, or the typed
/// failure; an unfinished phase has no outcome yet.
pub fn write_outcome(phase: WritePhase) -> (r: Option<Result<(), WriteError>>)
    ensures
        phase is Complete ==> r == Some(Ok::<(), WriteError>(())),
        phase matches WritePhase::Failed(e) ==> r == Some(Err::<(), WriteError>(e)),
        phase is Inserting || phase is Patching ==> r is None,
{
    match phase {
        WritePhase::Complete => Some(Ok(())),
        WritePhase::Failed(e) => Some(Err(e)),
        _ => None,
    }
}

impl Product {
    /// The targeted second write of the protocol: the identity to filter on,
    /// rendered in its canonical string form, and the recomputed derived
    /// field for this record's authoritative price and weight.
    pub fn post_update_patch(&self) -> (r: (String, Cents))
        ensures
            r.0@ == self@.uuid,
            r.1.0 == price_per_kg_of(self@.price, self@.weight),
    {
        (self.uuid.to_uuid_string(), compute_price_per_kg(self.price, self.weight))
    }
}

/// The inconsistency window, named: when the persist is acknowledged and the
/// patch then refused, the sequence ends in `DerivedFieldPatchFailure` — the
/// record is durable with a stale derived field — while a refused persist
/// ends in `StoreWriteFailure`, and the two outcomes are never confused.
pub proof fn lemma_consistency_window()
    ensures
        next_phase(next_phase(WritePhase::Inserting, true), false) == WritePhase::Failed(
            WriteError::DerivedFieldPatchFailure,
        ),
        next_phase(WritePhase::Inserting, false) == WritePhase::Failed(
            WriteError::StoreWriteFailure,
        ),
        WriteError::DerivedFieldPatchFailure != WriteError::StoreWriteFailure,
{
}

} // verus!
