//! The error taxonomy the interpreter raises or relays.

use vstd::prelude::*;
use crate::types::{BucketId, ProofId};

verus! {

/// Failure of the transaction-scoped id allocator: the id space is exhausted.
#[derive(Debug, Clone, Copy, PartialEq, Eq, Structural)]
pub enum IdAllocatorError {
    OutOfId,
}

/// An error raised by the interpreter itself or relayed from the engine.
///
/// The first three variants are the interpreter's own; the remaining ones
/// are failures an engine reports and the interpreter surfaces unchanged.
#[derive(Debug, Clone, Copy, PartialEq, Eq, Structural)]
pub enum RuntimeError {
    /// The transaction-scoped id space is exhausted.
    IdAllocatorError(IdAllocatorError),
    /// A transaction-scoped bucket id is not present in the bucket table.
    BucketNotFound(BucketId),
    /// A transaction-scoped proof id is not present in the proof table.
    ProofNotFound(ProofId),
    /// The worktop refused a take or a containment assertion failed.
    WorktopError,
    /// A proof was popped from an empty auth zone.
    AuthZoneIsEmpty,
    /// The end-of-transaction audit found dangling buckets or proofs.
    ResourceCheckFailure,
}

} // verus!
