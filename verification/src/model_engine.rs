//! A reference engine: a self-contained, fully verified implementation
//! of the engine contract over fungible balances.
//!
//! The worktop is a map from resource key to available amount, buckets
//! carry a resource and an amount, proofs are opaque ids, and the auth
//! zone is a stack.  The model tracks balances only: its worktop never
//! holds non-fungible ids, so a take by ids always fails and a
//! containment assertion by ids succeeds exactly for the empty request.

use vstd::prelude::*;
use std::collections::HashMap;
use std::collections::HashSet;
use crate::types::{
    BucketId, ProofId, ResourceAddress, PackageAddress, ComponentAddress, NonFungibleId, Decimal,
};
use crate::errors::{IdAllocatorError, RuntimeError};
use crate::value::{ScryptoValue, view_seq, bucket_ids_of, proof_ids_of, bucket_ids_of_seq,
    proof_ids_of_seq};
use crate::engine::{Engine, EngineEvent, worktop_amount};

verus! {

broadcast use vstd::std_specs::hash::group_hash_axioms;

/// The reference engine's concrete state.
pub struct ModelEngine {
    worktop_map: HashMap<u64, i128>,
    buckets: HashMap<BucketId, (u64, i128)>,
    proofs: HashSet<ProofId>,
    zone: Vec<ProofId>,
    next_bucket_eid: u32,
    next_proof_eid: u32,
    next_package: u64,
    events: Ghost<Seq<EngineEvent>>,
}

impl ModelEngine {
    /// The engine-side proof id space is not exhausted.
    pub closed spec fn can_mint_proof(&self) -> bool {
        self.next_proof_eid < u32::MAX
    }

    pub fn new() -> (e: ModelEngine)
        ensures
            e.inv(),
            e.log() == Seq::<EngineEvent>::empty(),
            e.live_buckets() == Set::<BucketId>::empty(),
            e.live_proofs() == Set::<ProofId>::empty(),
            e.auth_zone() == Seq::<ProofId>::empty(),
            e.worktop() == Map::<u64, int>::empty(),
            e.can_mint_proof(),
    {
        let e = ModelEngine {
            worktop_map: HashMap::new(),
            buckets: HashMap::new(),
            proofs: HashSet::new(),
            zone: Vec::new(),
            next_bucket_eid: 1,
            next_proof_eid: 1,
            next_package: 1,
            events: Ghost(Seq::empty()),
        };
        proof {
            assert(e.worktop() =~= Map::<u64, int>::empty());
            assert(e.live_buckets() =~= Set::<BucketId>::empty());
        }
        e
    }

    /// Sets the available worktop balance of one resource; test setup.
    pub fn set_worktop_balance(&mut self, resource_address: ResourceAddress, amount: Decimal)
        requires
            old(self).inv(),
            amount.0 >= 0,
        ensures
            final(self).inv(),
            final(self).worktop() == old(self).worktop().insert(resource_address.0, amount.0 as int),
            final(self).log() == old(self).log(),
            final(self).live_buckets() == old(self).live_buckets(),
            final(self).live_proofs() == old(self).live_proofs(),
            final(self).auth_zone() == old(self).auth_zone(),
    {
        self.worktop_map.insert(resource_address.0, amount.0);
        proof {
            assert(self.worktop() =~= old(self).worktop().insert(
                resource_address.0,
                amount.0 as int,
            ));
        }
    }

    /// Places a freshly minted proof on the auth zone; test setup.
    pub fn seed_auth_zone_proof(&mut self)
        requires
            old(self).inv(),
            old(self).can_mint_proof(),
        ensures
            final(self).inv(),
            final(self).auth_zone().len() == old(self).auth_zone().len() + 1,
            final(self).auth_zone().drop_last() == old(self).auth_zone(),
            final(self).log() == old(self).log(),
            final(self).live_buckets() == old(self).live_buckets(),
            final(self).live_proofs() == old(self).live_proofs(),
            final(self).worktop() == old(self).worktop(),
    {
        let p = self.next_proof_eid;
        self.next_proof_eid = self.next_proof_eid + 1;
        self.zone.push(p);
        proof {
            assert(self.auth_zone().drop_last() =~= old(self).auth_zone());
        }
    }

    /// The worktop balance of one resource, zero when absent.
    pub fn worktop_balance(&self, resource_address: ResourceAddress) -> (a: i128)
        requires
            self.inv(),
        ensures
            a == worktop_amount(self.worktop(), resource_address.0),
    {
        match self.worktop_map.get(&resource_address.0) {
            Some(v) => *v,
            None => 0,
        }
    }

    /// How many buckets the transaction still owns.
    pub fn live_bucket_count(&self) -> (n: usize)
        ensures
            n == self.live_buckets().len(),
    {
        self.buckets.len()
    }

    /// How many proofs the transaction still owns outside the auth zone.
    pub fn live_proof_count(&self) -> (n: usize)
        ensures
            n == self.live_proofs().len(),
    {
        self.proofs.len()
    }

    /// Depth of the auth zone stack.
    pub fn auth_zone_depth(&self) -> (n: usize)
        ensures
            n == self.auth_zone().len(),
    {
        self.zone.len()
    }

    /// Consumes every bucket and proof id embedded in one value.
    fn consume_value(&mut self, v: &ScryptoValue) -> (r: Result<(), RuntimeError>)
        requires
            old(self).inv(),
        ensures
            final(self).inv(),
            final(self).buckets@.submap_of(old(self).buckets@),
            final(self).proofs@.subset_of(old(self).proofs@),
            final(self).zone == old(self).zone,
            final(self).worktop_map == old(self).worktop_map,
            final(self).next_bucket_eid == old(self).next_bucket_eid,
            final(self).next_proof_eid == old(self).next_proof_eid,
            final(self).next_package == old(self).next_package,
            final(self).events == old(self).events,
            r is Ok ==> {
                &&& forall|id: BucketId| #[trigger] final(self).buckets@.dom().contains(id)
                    <==> old(self).buckets@.dom().contains(id) && !bucket_ids_of(
                    v@,
                ).contains(id)
                &&& forall|id: ProofId| #[trigger] final(self).proofs@.contains(id)
                    <==> old(self).proofs@.contains(id) && !proof_ids_of(v@).contains(id)
            },
        decreases v,
    {
        match v {
            ScryptoValue::Bucket(id) => match self.buckets.remove(id) {
                Some(_) => Ok(()),
                None => {
                    proof {
                        assert(self.buckets@ =~= old(self).buckets@);
                    }
                    Err(RuntimeError::BucketNotFound(*id))
                },
            },
            ScryptoValue::Proof(id) => {
                if self.proofs.remove(id) {
                    Ok(())
                } else {
                    proof {
                        assert(self.proofs@ =~= old(self).proofs@);
                    }
                    Err(RuntimeError::ProofNotFound(*id))
                }
            },
            ScryptoValue::Tuple(vs) => {
                proof {
                    assert(decreases_to!(*v => *vs));
                }
                self.consume_vec(vs)
            },
            ScryptoValue::Variant(_t, vs) => {
                proof {
                    assert(decreases_to!(*v => *vs));
                }
                self.consume_vec(vs)
            },
            ScryptoValue::List(vs) => {
                proof {
                    assert(decreases_to!(*v => *vs));
                }
                self.consume_vec(vs)
            },
            _ => Ok(()),
        }
    }

    /// Consumes the ids embedded in each element, left to right.
    fn consume_vec(&mut self, vs: &Vec<ScryptoValue>) -> (r: Result<(), RuntimeError>)
        requires
            old(self).inv(),
        ensures
            final(self).inv(),
            final(self).buckets@.submap_of(old(self).buckets@),
            final(self).proofs@.subset_of(old(self).proofs@),
            final(self).zone == old(self).zone,
            final(self).worktop_map == old(self).worktop_map,
            final(self).next_bucket_eid == old(self).next_bucket_eid,
            final(self).next_proof_eid == old(self).next_proof_eid,
            final(self).next_package == old(self).next_package,
            final(self).events == old(self).events,
            r is Ok ==> {
                &&& forall|id: BucketId| #[trigger] final(self).buckets@.dom().contains(id)
                    <==> old(self).buckets@.dom().contains(id) && !bucket_ids_of_seq(
                    view_seq(vs@),
                ).contains(id)
                &&& forall|id: ProofId| #[trigger] final(self).proofs@.contains(id)
                    <==> old(self).proofs@.contains(id) && !proof_ids_of_seq(
                    view_seq(vs@),
                ).contains(id)
            },
        decreases vs,
    {
        let ghost b0 = self.buckets@;
        let ghost p0 = self.proofs@;
        let mut i: usize = 0;
        proof {
            crate::value::lemma_view_seq(vs@);
            assert(view_seq(vs@).take(0) =~= Seq::<crate::value::SpecValue>::empty());
        }
        while i < vs.len()
            invariant
                old(self).inv(),
                self.inv(),
                i <= vs.len(),
                b0 == old(self).buckets@,
                p0 == old(self).proofs@,
                view_seq(vs@).len() == vs.len(),
                forall|j: int| 0 <= j < vs@.len() ==> view_seq(vs@)[j] == crate::value::view_value(
                    vs@[j],
                ),
                self.buckets@.submap_of(b0),
                self.proofs@.subset_of(p0),
                self.zone == old(self).zone,
                self.worktop_map == old(self).worktop_map,
                self.next_bucket_eid == old(self).next_bucket_eid,
                self.next_proof_eid == old(self).next_proof_eid,
                self.next_package == old(self).next_package,
                self.events == old(self).events,
                forall|id: BucketId| #[trigger] self.buckets@.dom().contains(id)
                    <==> b0.dom().contains(id) && !bucket_ids_of_seq(
                    view_seq(vs@).take(i as int),
                ).contains(id),
                forall|id: ProofId| #[trigger] self.proofs@.contains(id)
                    <==> p0.contains(id) && !proof_ids_of_seq(
                    view_seq(vs@).take(i as int),
                ).contains(id),
            decreases vs.len() - i,
        {
            let ghost b_mid = self.buckets@;
            let ghost p_mid = self.proofs@;
            proof {
                assert(decreases_to!(*vs => vs@));
                assert(decreases_to!(vs@ => vs@[i as int]));
            }
            match self.consume_value(&vs[i]) {
                Ok(_) => {},
                Err(e) => {
                    proof {
                        vstd::map_lib::lemma_submap_of_trans(self.buckets@, b_mid, b0);
                    }
                    return Err(e);
                },
            }
            i = i + 1;
            proof {
                vstd::map_lib::lemma_submap_of_trans(self.buckets@, b_mid, b0);
                let t = view_seq(vs@).take(i as int);
                assert(t.drop_last() =~= view_seq(vs@).take(i - 1));
                assert(t.last() == view_seq(vs@)[i - 1]);
                assert(view_seq(vs@)[i - 1] == crate::value::view_value(vs@[i - 1]));
            }
        }
        proof {
            assert(view_seq(vs@).take(i as int) =~= view_seq(vs@));
        }
        Ok(())
    }
}

impl Engine for ModelEngine {
    closed spec fn inv(&self) -> bool {
        &&& forall|b: BucketId| #[trigger] self.buckets@.dom().contains(b)
            ==> b < self.next_bucket_eid
        &&& forall|p: ProofId| #[trigger] self.proofs@.contains(p) ==> p < self.next_proof_eid
        &&& forall|i: int| 0 <= i < self.zone@.len() ==> #[trigger] self.zone@[i]
            < self.next_proof_eid && !self.proofs@.contains(self.zone@[i])
        &&& self.zone@.no_duplicates()
        &&& forall|k: u64| #[trigger] self.worktop_map@.dom().contains(k)
            ==> self.worktop_map@[k] >= 0
        &&& forall|b: BucketId| #[trigger] self.buckets@.dom().contains(b)
            ==> self.buckets@[b].1 >= 0
    }

    closed spec fn log(&self) -> Seq<EngineEvent> {
        self.events@
    }

    closed spec fn live_buckets(&self) -> Set<BucketId> {
        self.buckets@.dom()
    }

    closed spec fn live_proofs(&self) -> Set<ProofId> {
        self.proofs@
    }

    closed spec fn auth_zone(&self) -> Seq<ProofId> {
        self.zone@
    }

    closed spec fn worktop(&self) -> Map<u64, int> {
        Map::new(
            |k: u64| self.worktop_map@.dom().contains(k),
            |k: u64| self.worktop_map@[k] as int,
        )
    }

    closed spec fn bucket_resource(&self, id: BucketId) -> u64 {
        self.buckets@[id].0
    }

    closed spec fn bucket_amount(&self, id: BucketId) -> int {
        self.buckets@[id].1 as int
    }

    closed spec fn worktop_ids(&self, res: u64) -> Set<NonFungibleId> {
        Set::empty()
    }

    closed spec fn bucket_nf_ids(&self, id: BucketId) -> Set<NonFungibleId> {
        Set::empty()
    }

    fn take_all_from_worktop(&mut self, resource_address: ResourceAddress) -> (r: Result<
        BucketId,
        RuntimeError,
    >) {
        if self.next_bucket_eid == u32::MAX {
            let out: Result<BucketId, RuntimeError> = Err(
                RuntimeError::IdAllocatorError(IdAllocatorError::OutOfId),
            );
            proof {
                self.events@ = self.events@.push(
                    (EngineEvent::TakeAllFromWorktop { resource_address, result: out }),
                );
            }
            return out;
        }
        let avail = match self.worktop_map.get(&resource_address.0) {
            Some(v) => *v,
            None => 0,
        };
        let id = self.next_bucket_eid;
        self.next_bucket_eid = self.next_bucket_eid + 1;
        self.worktop_map.insert(resource_address.0, 0);
        self.buckets.insert(id, (resource_address.0, avail));
        let out: Result<BucketId, RuntimeError> = Ok(id);
        proof {
            self.events@ = self.events@.push(
                (EngineEvent::TakeAllFromWorktop { resource_address, result: out }),
            );
            assert(self.worktop() =~= old(self).worktop().insert(resource_address.0, 0));
            assert(self.live_buckets() =~= old(self).live_buckets().insert(id));
        }
        out
    }

    fn take_from_worktop(&mut self, amount: Decimal, resource_address: ResourceAddress) -> (r:
        Result<BucketId, RuntimeError>) {
        if self.next_bucket_eid == u32::MAX || amount.0 < 0 {
            let out: Result<BucketId, RuntimeError> = Err(RuntimeError::WorktopError);
            proof {
                self.events@ = self.events@.push(
                    (EngineEvent::TakeFromWorktop { amount, resource_address, result: out }),
                );
            }
            return out;
        }
        let avail = match self.worktop_map.get(&resource_address.0) {
            Some(v) => Some(*v),
            None => None,
        };
        match avail {
            Some(a) if a >= amount.0 => {
                let id = self.next_bucket_eid;
                self.next_bucket_eid = self.next_bucket_eid + 1;
                self.worktop_map.insert(resource_address.0, a - amount.0);
                self.buckets.insert(id, (resource_address.0, amount.0));
                let out: Result<BucketId, RuntimeError> = Ok(id);
                proof {
                    self.events@ = self.events@.push(
                        (EngineEvent::TakeFromWorktop { amount, resource_address, result: out }),
                    );
                    assert(self.worktop() =~= old(self).worktop().insert(
                        resource_address.0,
                        worktop_amount(old(self).worktop(), resource_address.0) - amount.0,
                    ));
                    assert(self.live_buckets() =~= old(self).live_buckets().insert(id));
                }
                out
            },
            _ => {
                let out: Result<BucketId, RuntimeError> = Err(RuntimeError::WorktopError);
                proof {
                    self.events@ = self.events@.push(
                        (EngineEvent::TakeFromWorktop { amount, resource_address, result: out }),
                    );
                }
                out
            },
        }
    }

    fn take_non_fungibles_from_worktop(
        &mut self,
        ids: &Vec<NonFungibleId>,
        resource_address: ResourceAddress,
    ) -> (r: Result<BucketId, RuntimeError>) {
        let out: Result<BucketId, RuntimeError> = Err(RuntimeError::WorktopError);
        proof {
            self.events@ = self.events@.push(
                (EngineEvent::TakeNonFungiblesFromWorktop {
                    ids: ids@,
                    resource_address,
                    result: out,
                }),
            );
        }
        out
    }

    fn return_to_worktop(&mut self, bucket_id: BucketId) -> (r: Result<(), RuntimeError>) {
        let contents = match self.buckets.get(&bucket_id) {
            Some(c) => Some(*c),
            None => None,
        };
        match contents {
            None => {
                let out: Result<(), RuntimeError> = Err(RuntimeError::BucketNotFound(bucket_id));
                proof {
                    self.events@ = self.events@.push(
                        (EngineEvent::ReturnToWorktop { bucket_id, result: out }),
                    );
                }
                out
            },
            Some((rk, amt)) => {
                let avail = match self.worktop_map.get(&rk) {
                    Some(v) => *v,
                    None => 0,
                };
                if avail > i128::MAX - amt {
                    let out: Result<(), RuntimeError> = Err(RuntimeError::WorktopError);
                    proof {
                        self.events@ = self.events@.push(
                            (EngineEvent::ReturnToWorktop { bucket_id, result: out }),
                        );
                    }
                    out
                } else {
                    self.buckets.remove(&bucket_id);
                    self.worktop_map.insert(rk, avail + amt);
                    let out: Result<(), RuntimeError> = Ok(());
                    proof {
                        self.events@ = self.events@.push(
                            (EngineEvent::ReturnToWorktop { bucket_id, result: out }),
                        );
                        assert(self.live_buckets() =~= old(self).live_buckets().remove(bucket_id));
                        assert(self.worktop() =~= old(self).worktop().insert(
                            old(self).bucket_resource(bucket_id),
                            worktop_amount(
                                old(self).worktop(),
                                old(self).bucket_resource(bucket_id),
                            ) + old(self).bucket_amount(bucket_id),
                        ));
                    }
                    out
                }
            },
        }
    }

    fn assert_worktop_contains(&mut self, resource_address: ResourceAddress) -> (r: Result<
        (),
        RuntimeError,
    >) {
        let avail = match self.worktop_map.get(&resource_address.0) {
            Some(v) => *v,
            None => 0,
        };
        let out: Result<(), RuntimeError> = if avail > 0 {
            Ok(())
        } else {
            Err(RuntimeError::WorktopError)
        };
        proof {
            self.events@ = self.events@.push(
                (EngineEvent::AssertWorktopContains { resource_address, result: out }),
            );
        }
        out
    }

    fn assert_worktop_contains_by_amount(
        &mut self,
        amount: Decimal,
        resource_address: ResourceAddress,
    ) -> (r: Result<(), RuntimeError>) {
        let avail = match self.worktop_map.get(&resource_address.0) {
            Some(v) => *v,
            None => 0,
        };
        let out: Result<(), RuntimeError> = if avail >= amount.0 {
            Ok(())
        } else {
            Err(RuntimeError::WorktopError)
        };
        proof {
            self.events@ = self.events@.push(
                (EngineEvent::AssertWorktopContainsByAmount {
                    amount,
                    resource_address,
                    result: out,
                }),
            );
        }
        out
    }

    fn assert_worktop_contains_by_ids(
        &mut self,
        ids: &Vec<NonFungibleId>,
        resource_address: ResourceAddress,
    ) -> (r: Result<(), RuntimeError>) {
        let out: Result<(), RuntimeError> = if ids.len() == 0 {
            Ok(())
        } else {
            Err(RuntimeError::WorktopError)
        };
        proof {
            if ids@.len() == 0 {
                assert(ids@.to_set() =~= Set::<NonFungibleId>::empty());
            } else {
                assert(ids@.contains(ids@[0]));
                assert(ids@.to_set().contains(ids@[0]));
            }
            self.events@ = self.events@.push(
                (EngineEvent::AssertWorktopContainsByIds {
                    ids: ids@,
                    resource_address,
                    result: out,
                }),
            );
        }
        out
    }

    fn pop_from_auth_zone(&mut self) -> (r: Result<ProofId, RuntimeError>) {
        match self.zone.pop() {
            Some(p) => {
                self.proofs.insert(p);
                let out: Result<ProofId, RuntimeError> = Ok(p);
                proof {
                    self.events@ = self.events@.push(
                        (EngineEvent::PopFromAuthZone { result: out }),
                    );
                    assert(old(self).zone@[old(self).zone@.len() - 1] == p);
                    assert(self.live_proofs() =~= old(self).live_proofs().insert(p));
                    assert forall|i: int| 0 <= i < self.zone@.len()
                        implies #[trigger] self.zone@[i] < self.next_proof_eid
                            && !self.proofs@.contains(self.zone@[i]) by {
                        assert(old(self).zone@[i] == self.zone@[i]);
                        assert(self.zone@[i] != p);
                    }
                }
                out
            },
            None => {
                let out: Result<ProofId, RuntimeError> = Err(RuntimeError::AuthZoneIsEmpty);
                proof {
                    self.events@ = self.events@.push(
                        (EngineEvent::PopFromAuthZone { result: out }),
                    );
                }
                out
            },
        }
    }

    fn push_to_auth_zone(&mut self, proof_id: ProofId) -> (r: Result<(), RuntimeError>) {
        if self.proofs.remove(&proof_id) {
            self.zone.push(proof_id);
            let out: Result<(), RuntimeError> = Ok(());
            proof {
                self.events@ = self.events@.push(
                    (EngineEvent::PushToAuthZone { proof_id, result: out }),
                );
                assert(self.live_proofs() =~= old(self).live_proofs().remove(proof_id));
                assert forall|i: int| 0 <= i < self.zone@.len()
                    implies #[trigger] self.zone@[i] < self.next_proof_eid
                        && !self.proofs@.contains(self.zone@[i]) by {
                    if i < self.zone@.len() - 1 {
                        assert(old(self).zone@[i] == self.zone@[i]);
                    }
                }
                assert forall|i: int| 0 <= i < self.zone@.len() - 1
                    implies #[trigger] self.zone@[i] != proof_id by {
                    assert(!old(self).proofs@.contains(old(self).zone@[i]));
                }
            }
            out
        } else {
            let out: Result<(), RuntimeError> = Err(RuntimeError::ProofNotFound(proof_id));
            proof {
                self.events@ = self.events@.push(
                    (EngineEvent::PushToAuthZone { proof_id, result: out }),
                );
                assert(self.proofs@ =~= old(self).proofs@);
            }
            out
        }
    }

    fn drop_all_auth_zone_proofs(&mut self) -> (r: Result<(), RuntimeError>) {
        self.zone = Vec::new();
        let out: Result<(), RuntimeError> = Ok(());
        proof {
            self.events@ = self.events@.push(
                (EngineEvent::DropAllAuthZoneProofs { result: out }),
            );
        }
        out
    }

    fn create_auth_zone_proof(&mut self, resource_address: ResourceAddress) -> (r: Result<
        ProofId,
        RuntimeError,
    >) {
        if self.next_proof_eid == u32::MAX {
            let out: Result<ProofId, RuntimeError> = Err(
                RuntimeError::IdAllocatorError(IdAllocatorError::OutOfId),
            );
            proof {
                self.events@ = self.events@.push(
                    (EngineEvent::CreateAuthZoneProof { resource_address, result: out }),
                );
            }
            return out;
        }
        let p = self.next_proof_eid;
        self.next_proof_eid = self.next_proof_eid + 1;
        self.proofs.insert(p);
        let out: Result<ProofId, RuntimeError> = Ok(p);
        proof {
            self.events@ = self.events@.push(
                (EngineEvent::CreateAuthZoneProof { resource_address, result: out }),
            );
            assert(self.live_proofs() =~= old(self).live_proofs().insert(p));
        }
        out
    }

    fn create_auth_zone_proof_by_amount(
        &mut self,
        amount: Decimal,
        resource_address: ResourceAddress,
    ) -> (r: Result<ProofId, RuntimeError>) {
        if self.next_proof_eid == u32::MAX {
            let out: Result<ProofId, RuntimeError> = Err(
                RuntimeError::IdAllocatorError(IdAllocatorError::OutOfId),
            );
            proof {
                self.events@ = self.events@.push(
                    (EngineEvent::CreateAuthZoneProofByAmount {
                        amount,
                        resource_address,
                        result: out,
                    }),
                );
            }
            return out;
        }
        let p = self.next_proof_eid;
        self.next_proof_eid = self.next_proof_eid + 1;
        self.proofs.insert(p);
        let out: Result<ProofId, RuntimeError> = Ok(p);
        proof {
            self.events@ = self.events@.push(
                (EngineEvent::CreateAuthZoneProofByAmount {
                    amount,
                    resource_address,
                    result: out,
                }),
            );
            assert(self.live_proofs() =~= old(self).live_proofs().insert(p));
        }
        out
    }

    fn create_auth_zone_proof_by_ids(
        &mut self,
        ids: &Vec<NonFungibleId>,
        resource_address: ResourceAddress,
    ) -> (r: Result<ProofId, RuntimeError>) {
        if self.next_proof_eid == u32::MAX {
            let out: Result<ProofId, RuntimeError> = Err(
                RuntimeError::IdAllocatorError(IdAllocatorError::OutOfId),
            );
            proof {
                self.events@ = self.events@.push(
                    (EngineEvent::CreateAuthZoneProofByIds {
                        ids: ids@,
                        resource_address,
                        result: out,
                    }),
                );
            }
            return out;
        }
        let p = self.next_proof_eid;
        self.next_proof_eid = self.next_proof_eid + 1;
        self.proofs.insert(p);
        let out: Result<ProofId, RuntimeError> = Ok(p);
        proof {
            self.events@ = self.events@.push(
                (EngineEvent::CreateAuthZoneProofByIds {
                    ids: ids@,
                    resource_address,
                    result: out,
                }),
            );
            assert(self.live_proofs() =~= old(self).live_proofs().insert(p));
        }
        out
    }

    fn txn_create_bucket_proof(&mut self, bucket_id: BucketId) -> (r: Result<
        ProofId,
        RuntimeError,
    >) {
        if self.next_proof_eid == u32::MAX || !self.buckets.contains_key(&bucket_id) {
            let out: Result<ProofId, RuntimeError> = Err(RuntimeError::BucketNotFound(bucket_id));
            proof {
                self.events@ = self.events@.push(
                    (EngineEvent::CreateBucketProof { bucket_id, result: out }),
                );
            }
            return out;
        }
        let p = self.next_proof_eid;
        self.next_proof_eid = self.next_proof_eid + 1;
        self.proofs.insert(p);
        let out: Result<ProofId, RuntimeError> = Ok(p);
        proof {
            self.events@ = self.events@.push(
                (EngineEvent::CreateBucketProof { bucket_id, result: out }),
            );
            assert(self.live_proofs() =~= old(self).live_proofs().insert(p));
        }
        out
    }

    fn clone_proof(&mut self, proof_id: ProofId) -> (r: Result<ProofId, RuntimeError>) {
        if self.next_proof_eid == u32::MAX || !self.proofs.contains(&proof_id) {
            let out: Result<ProofId, RuntimeError> = Err(RuntimeError::ProofNotFound(proof_id));
            proof {
                self.events@ = self.events@.push(
                    (EngineEvent::CloneProof { proof_id, result: out }),
                );
            }
            return out;
        }
        let p = self.next_proof_eid;
        self.next_proof_eid = self.next_proof_eid + 1;
        self.proofs.insert(p);
        let out: Result<ProofId, RuntimeError> = Ok(p);
        proof {
            self.events@ = self.events@.push(
                (EngineEvent::CloneProof { proof_id, result: out }),
            );
            assert(self.live_proofs() =~= old(self).live_proofs().insert(p));
        }
        out
    }

    fn drop_proof(&mut self, proof_id: ProofId) -> (r: Result<(), RuntimeError>) {
        if self.proofs.remove(&proof_id) {
            let out: Result<(), RuntimeError> = Ok(());
            proof {
                self.events@ = self.events@.push(
                    (EngineEvent::DropProof { proof_id, result: out }),
                );
                assert(self.live_proofs() =~= old(self).live_proofs().remove(proof_id));
            }
            out
        } else {
            let out: Result<(), RuntimeError> = Err(RuntimeError::ProofNotFound(proof_id));
            proof {
                self.events@ = self.events@.push(
                    (EngineEvent::DropProof { proof_id, result: out }),
                );
                assert(self.proofs@ =~= old(self).proofs@);
            }
            out
        }
    }

    fn txn_call_function(
        &mut self,
        package_address: PackageAddress,
        blueprint_name: &String,
        function: &String,
        args: Vec<ScryptoValue>,
    ) -> (r: Result<ScryptoValue, RuntimeError>) {
        let out: Result<ScryptoValue, RuntimeError> = match self.consume_vec(&args) {
            Ok(_) => Ok(ScryptoValue::Unit),
            Err(e) => Err(e),
        };
        proof {
            self.events@ = self.events@.push(
                (EngineEvent::CallFunction {
                    package_address,
                    blueprint_name: blueprint_name@,
                    function: function@,
                    args: view_seq(args@),
                    result: out,
                }),
            );
        }
        out
    }

    fn txn_call_method(
        &mut self,
        component_address: ComponentAddress,
        method: &String,
        args: Vec<ScryptoValue>,
    ) -> (r: Result<ScryptoValue, RuntimeError>) {
        let out: Result<ScryptoValue, RuntimeError> = match self.consume_vec(&args) {
            Ok(_) => Ok(ScryptoValue::Unit),
            Err(e) => Err(e),
        };
        proof {
            self.events@ = self.events@.push(
                (EngineEvent::CallMethod {
                    component_address,
                    method: method@,
                    args: view_seq(args@),
                    result: out,
                }),
            );
        }
        out
    }

    fn call_method_with_all_resources(
        &mut self,
        component_address: ComponentAddress,
        method: &String,
    ) -> (r: Result<ScryptoValue, RuntimeError>) {
        self.worktop_map = HashMap::new();
        let out: Result<ScryptoValue, RuntimeError> = Ok(ScryptoValue::Unit);
        proof {
            self.events@ = self.events@.push(
                (EngineEvent::CallMethodWithAllResources {
                    component_address,
                    method: method@,
                    result: out,
                }),
            );
        }
        out
    }

    fn publish_package(&mut self, code: Vec<u8>) -> (r: Result<PackageAddress, RuntimeError>) {
        let a = self.next_package;
        if a < u64::MAX {
            self.next_package = a + 1;
        }
        let out: Result<PackageAddress, RuntimeError> = Ok(PackageAddress(a));
        proof {
            self.events@ = self.events@.push(
                (EngineEvent::PublishPackage { code: code@, result: out }),
            );
        }
        out
    }

    fn drop_all_proofs(&mut self) -> (r: Result<(), RuntimeError>) {
        self.proofs = HashSet::new();
        self.zone = Vec::new();
        let out: Result<(), RuntimeError> = Ok(());
        proof {
            self.events@ = self.events@.push((EngineEvent::DropAllProofs { result: out }));
            assert(self.live_proofs() =~= Set::<ProofId>::empty());
        }
        out
    }

    fn check_resource(&mut self) -> (r: Result<(), RuntimeError>) {
        let out: Result<(), RuntimeError> = if self.buckets.is_empty() && self.proofs.is_empty() {
            Ok(())
        } else {
            Err(RuntimeError::ResourceCheckFailure)
        };
        proof {
            self.events@ = self.events@.push((EngineEvent::CheckResource { result: out }));
            if self.buckets@.len() == 0 {
                vstd::set_lib::lemma_set_empty_equivalency_len(self.buckets@.dom());
            }
        }
        out
    }
}

} // verus!
