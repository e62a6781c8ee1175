//! Issues fresh, monotonically increasing transaction-scoped identifiers.

use vstd::prelude::*;
use crate::types::{BucketId, ProofId};
use crate::errors::IdAllocatorError;

verus! {

/// Allocator for transaction-scoped bucket and proof ids.
///
/// Bucket and proof id spaces are independent counters; ids are unique
/// within a run and are never reused, even after the associated object
/// is dropped.  The first id issued in each space is 1.
#[derive(Debug, Clone, Copy, PartialEq, Eq, Structural)]
pub struct IdAllocator {
    pub next_bucket_id: u32,
    pub next_proof_id: u32,
}

impl IdAllocator {
    pub fn new() -> (a: IdAllocator)
        ensures
            a.next_bucket_id == 1,
            a.next_proof_id == 1,
    {
        IdAllocator { next_bucket_id: 1, next_proof_id: 1 }
    }

    /// Issues a fresh bucket id; fails exactly on the first allocation
    /// past the end of the 32-bit id space, leaving the counter unchanged.
    pub fn new_bucket_id(&mut self) -> (r: Result<BucketId, IdAllocatorError>)
        ensures
            old(self).next_bucket_id < u32::MAX ==> {
                &&& r == Ok::<BucketId, IdAllocatorError>(old(self).next_bucket_id)
                &&& final(self).next_bucket_id == old(self).next_bucket_id + 1
            },
            old(self).next_bucket_id == u32::MAX ==> {
                &&& r == Err::<BucketId, IdAllocatorError>(IdAllocatorError::OutOfId)
                &&& final(self).next_bucket_id == old(self).next_bucket_id
            },
            final(self).next_proof_id == old(self).next_proof_id,
    {
        if self.next_bucket_id == u32::MAX {
            Err(IdAllocatorError::OutOfId)
        } else {
            let id = self.next_bucket_id;
            self.next_bucket_id = self.next_bucket_id + 1;
            Ok(id)
        }
    }

    /// Issues a fresh proof id; fails exactly on the first allocation
    /// past the end of the 32-bit id space, leaving the counter unchanged.
    pub fn new_proof_id(&mut self) -> (r: Result<ProofId, IdAllocatorError>)
        ensures
            old(self).next_proof_id < u32::MAX ==> {
                &&& r == Ok::<ProofId, IdAllocatorError>(old(self).next_proof_id)
                &&& final(self).next_proof_id == old(self).next_proof_id + 1
            },
            old(self).next_proof_id == u32::MAX ==> {
                &&& r == Err::<ProofId, IdAllocatorError>(IdAllocatorError::OutOfId)
                &&& final(self).next_proof_id == old(self).next_proof_id
            },
            final(self).next_bucket_id == old(self).next_bucket_id,
    {
        if self.next_proof_id == u32::MAX {
            Err(IdAllocatorError::OutOfId)
        } else {
            let id = self.next_proof_id;
            self.next_proof_id = self.next_proof_id + 1;
            Ok(id)
        }
    }
}

} // verus!
