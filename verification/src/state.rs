//! The interpreter's own run state: the two translation tables and the
//! transaction-scoped id allocator.
//!
//! The tables are the source of truth for linearity: every operation that
//! consumes a bucket or proof id removes it from its table before the
//! engine is invoked, so a later use of the same transaction-scoped id
//! deterministically fails.  The ghost key logs record every key ever
//! bound, in order, and never hold a key twice.

use vstd::prelude::*;
use std::collections::HashMap;
use crate::types::{BucketId, ProofId};
use crate::id_allocator::IdAllocator;

verus! {

broadcast use vstd::std_specs::hash::group_hash_axioms;

/// State owned by one transaction run.
pub struct RunState {
    /// Transaction-scoped bucket id to engine-scoped bucket id.
    pub bucket_id_mapping: HashMap<BucketId, BucketId>,
    /// Transaction-scoped proof id to engine-scoped proof id.
    pub proof_id_mapping: HashMap<ProofId, ProofId>,
    /// Source of fresh transaction-scoped ids.
    pub id_allocator: IdAllocator,
    /// Every bucket key ever bound, in binding order.
    pub bucket_keys_ever: Ghost<Seq<BucketId>>,
    /// Every proof key ever bound, in binding order.
    pub proof_keys_ever: Ghost<Seq<ProofId>>,
}

impl RunState {
    /// Keys ever bound are pairwise distinct and below the allocator
    /// counters, and the live table keys are among them.
    pub open spec fn wf(self) -> bool {
        &&& forall|k: BucketId| #[trigger] self.bucket_id_mapping@.dom().contains(k)
            ==> self.bucket_keys_ever@.contains(k)
        &&& forall|i: int| 0 <= i < self.bucket_keys_ever@.len()
            ==> #[trigger] self.bucket_keys_ever@[i] < self.id_allocator.next_bucket_id
        &&& self.bucket_keys_ever@.no_duplicates()
        &&& forall|k: ProofId| #[trigger] self.proof_id_mapping@.dom().contains(k)
            ==> self.proof_keys_ever@.contains(k)
        &&& forall|i: int| 0 <= i < self.proof_keys_ever@.len()
            ==> #[trigger] self.proof_keys_ever@[i] < self.id_allocator.next_proof_id
        &&& self.proof_keys_ever@.no_duplicates()
    }

    pub fn new() -> (s: RunState)
        ensures
            s.wf(),
            s.bucket_id_mapping@ == Map::<BucketId, BucketId>::empty(),
            s.proof_id_mapping@ == Map::<ProofId, ProofId>::empty(),
            s.id_allocator.next_bucket_id == 1,
            s.id_allocator.next_proof_id == 1,
            s.bucket_keys_ever@ == Seq::<BucketId>::empty(),
            s.proof_keys_ever@ == Seq::<ProofId>::empty(),
    {
        RunState {
            bucket_id_mapping: HashMap::new(),
            proof_id_mapping: HashMap::new(),
            id_allocator: IdAllocator::new(),
            bucket_keys_ever: Ghost(Seq::empty()),
            proof_keys_ever: Ghost(Seq::empty()),
        }
    }

    /// Binds a freshly allocated transaction-scoped bucket id to an
    /// engine-scoped id.
    pub fn bind_bucket(&mut self, nid: BucketId, eid: BucketId)
        requires
            old(self).wf(),
            forall|i: int| 0 <= i < old(self).bucket_keys_ever@.len()
                ==> #[trigger] old(self).bucket_keys_ever@[i] < nid,
            nid < old(self).id_allocator.next_bucket_id,
        ensures
            final(self).wf(),
            final(self).bucket_id_mapping@ == old(self).bucket_id_mapping@.insert(nid, eid),
            final(self).bucket_keys_ever@ == old(self).bucket_keys_ever@.push(nid),
            final(self).proof_id_mapping == old(self).proof_id_mapping,
            final(self).proof_keys_ever == old(self).proof_keys_ever,
            final(self).id_allocator == old(self).id_allocator,
    {
        self.bucket_id_mapping.insert(nid, eid);
        proof {
            let keys0 = self.bucket_keys_ever@;
            self.bucket_keys_ever@ = self.bucket_keys_ever@.push(nid);
            assert(!keys0.contains(nid));
            assert forall|k: BucketId| #[trigger] self.bucket_id_mapping@.dom().contains(k)
                implies self.bucket_keys_ever@.contains(k) by {
                if k == nid {
                    assert(self.bucket_keys_ever@.last() == nid);
                } else {
                    let j = choose|j: int| 0 <= j < keys0.len() && keys0[j] == k;
                    assert(self.bucket_keys_ever@[j] == k);
                }
            }
        }
    }

    /// Binds a freshly allocated transaction-scoped proof id to an
    /// engine-scoped id.
    pub fn bind_proof(&mut self, nid: ProofId, eid: ProofId)
        requires
            old(self).wf(),
            forall|i: int| 0 <= i < old(self).proof_keys_ever@.len()
                ==> #[trigger] old(self).proof_keys_ever@[i] < nid,
            nid < old(self).id_allocator.next_proof_id,
        ensures
            final(self).wf(),
            final(self).proof_id_mapping@ == old(self).proof_id_mapping@.insert(nid, eid),
            final(self).proof_keys_ever@ == old(self).proof_keys_ever@.push(nid),
            final(self).bucket_id_mapping == old(self).bucket_id_mapping,
            final(self).bucket_keys_ever == old(self).bucket_keys_ever,
            final(self).id_allocator == old(self).id_allocator,
    {
        self.proof_id_mapping.insert(nid, eid);
        proof {
            let keys0 = self.proof_keys_ever@;
            self.proof_keys_ever@ = self.proof_keys_ever@.push(nid);
            assert(!keys0.contains(nid));
            assert forall|k: ProofId| #[trigger] self.proof_id_mapping@.dom().contains(k)
                implies self.proof_keys_ever@.contains(k) by {
                if k == nid {
                    assert(self.proof_keys_ever@.last() == nid);
                } else {
                    let j = choose|j: int| 0 <= j < keys0.len() && keys0[j] == k;
                    assert(self.proof_keys_ever@[j] == k);
                }
            }
        }
    }

    /// Removes and returns the engine id bound to a transaction-scoped
    /// bucket id; absence leaves the state untouched.
    pub fn take_bucket(&mut self, id: BucketId) -> (r: Option<BucketId>)
        requires
            old(self).wf(),
        ensures
            final(self).wf(),
            match r {
                Some(eid) => {
                    &&& old(self).bucket_id_mapping@.dom().contains(id)
                    &&& eid == old(self).bucket_id_mapping@[id]
                    &&& final(self).bucket_id_mapping@
                        == old(self).bucket_id_mapping@.remove(id)
                },
                None => {
                    &&& !old(self).bucket_id_mapping@.dom().contains(id)
                    &&& final(self).bucket_id_mapping@ == old(self).bucket_id_mapping@
                },
            },
            final(self).bucket_keys_ever == old(self).bucket_keys_ever,
            final(self).proof_id_mapping == old(self).proof_id_mapping,
            final(self).proof_keys_ever == old(self).proof_keys_ever,
            final(self).id_allocator == old(self).id_allocator,
    {
        let r = self.bucket_id_mapping.remove(&id);
        proof {
            if r is None {
                assert(self.bucket_id_mapping@ =~= old(self).bucket_id_mapping@);
            }
        }
        r
    }

    /// Removes and returns the engine id bound to a transaction-scoped
    /// proof id; absence leaves the state untouched.
    pub fn take_proof(&mut self, id: ProofId) -> (r: Option<ProofId>)
        requires
            old(self).wf(),
        ensures
            final(self).wf(),
            match r {
                Some(eid) => {
                    &&& old(self).proof_id_mapping@.dom().contains(id)
                    &&& eid == old(self).proof_id_mapping@[id]
                    &&& final(self).proof_id_mapping@ == old(self).proof_id_mapping@.remove(id)
                },
                None => {
                    &&& !old(self).proof_id_mapping@.dom().contains(id)
                    &&& final(self).proof_id_mapping@ == old(self).proof_id_mapping@
                },
            },
            final(self).proof_keys_ever == old(self).proof_keys_ever,
            final(self).bucket_id_mapping == old(self).bucket_id_mapping,
            final(self).bucket_keys_ever == old(self).bucket_keys_ever,
            final(self).id_allocator == old(self).id_allocator,
    {
        let r = self.proof_id_mapping.remove(&id);
        proof {
            if r is None {
                assert(self.proof_id_mapping@ =~= old(self).proof_id_mapping@);
            }
        }
        r
    }

    /// Non-removing read of the proof table, used by proof cloning.
    pub fn peek_proof(&self, id: ProofId) -> (r: Option<ProofId>)
        ensures
            match r {
                Some(eid) => self.proof_id_mapping@.dom().contains(id)
                    && eid == self.proof_id_mapping@[id],
                None => !self.proof_id_mapping@.dom().contains(id),
            },
    {
        match self.proof_id_mapping.get(&id) {
            Some(eid) => Some(*eid),
            None => None,
        }
    }

    /// Non-removing read of the bucket table, used when a proof is
    /// created out of a live bucket.
    pub fn peek_bucket(&self, id: BucketId) -> (r: Option<BucketId>)
        ensures
            match r {
                Some(eid) => self.bucket_id_mapping@.dom().contains(id)
                    && eid == self.bucket_id_mapping@[id],
                None => !self.bucket_id_mapping@.dom().contains(id),
            },
    {
        match self.bucket_id_mapping.get(&id) {
            Some(eid) => Some(*eid),
            None => None,
        }
    }

    /// Drops every entry of the proof table; used when the auth zone is
    /// cleared, so the local mapping cannot re-reference dead proofs.
    pub fn clear_proof_table(&mut self)
        requires
            old(self).wf(),
        ensures
            final(self).wf(),
            final(self).proof_id_mapping@ == Map::<ProofId, ProofId>::empty(),
            final(self).proof_keys_ever == old(self).proof_keys_ever,
            final(self).bucket_id_mapping == old(self).bucket_id_mapping,
            final(self).bucket_keys_ever == old(self).bucket_keys_ever,
            final(self).id_allocator == old(self).id_allocator,
    {
        self.proof_id_mapping.clear();
    }

    /// Number of live entries of the bucket table.
    pub fn bucket_table_len(&self) -> (n: usize)
        ensures
            n == self.bucket_id_mapping@.len(),
    {
        self.bucket_id_mapping.len()
    }

    /// Number of live entries of the proof table.
    pub fn proof_table_len(&self) -> (n: usize)
        ensures
            n == self.proof_id_mapping@.len(),
    {
        self.proof_id_mapping.len()
    }
}

} // verus!
