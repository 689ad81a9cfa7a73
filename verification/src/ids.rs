//! Identifier derivation.
//!
//! The engine keys its quiz records by an identifier derived from the quiz's
//! sequence number, and its deletion buckets by an identifier derived from the
//! bucket's due tick. A host that needs opaque identifiers derives them with a
//! deterministic, collision-resistant hash; the engine's logic relies on the
//! derivation being injective and on nothing else, so the identifier is
//! modelled here by the number it is derived from. Quiz identifiers and bucket
//! identifiers key different maps and are never mixed.

use vstd::prelude::*;

verus! {

/// The identifier of the quiz with sequence number `sequence`.
pub open spec fn quiz_id_of(sequence: u64) -> u64 {
    sequence
}

/// The identifier of the deletion bucket due at tick `tick`.
pub open spec fn bucket_id_of(tick: u64) -> u64 {
    tick
}

/// Derives the identifier a quiz is stored under from its sequence number.
pub fn derive_quiz_id(sequence: u64) -> (id: u64)
    ensures
        id == quiz_id_of(sequence),
{
    sequence
}

/// Derives the identifier of the deletion bucket due at `tick`.
pub fn derive_bucket_id(tick: u64) -> (id: u64)
    ensures
        id == bucket_id_of(tick),
{
    tick
}

} // verus!
