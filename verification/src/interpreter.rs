//! The instruction dispatcher and the transaction entry point.
//!
//! For each instruction in list order the dispatcher pulls fresh ids from
//! the allocator, invokes the engine, updates the translation tables and
//! emits one output value; the first failure halts the loop.  The
//! finalizer then always runs: it asks the engine to drop all remaining
//! proofs and to audit that no resources dangle, and an error it produces
//! is reported only if no earlier error was recorded.

use vstd::prelude::*;
use std::collections::HashMap;
use crate::types::{
    EcdsaPublicKey, BucketId, ProofId, ResourceAddress, PackageAddress, ComponentAddress,
    NonFungibleId, Decimal,
};
use crate::errors::{IdAllocatorError, RuntimeError};
use crate::value::{
    ScryptoValue, view_seq, rewrite_seq_spec, bucket_ids_of_seq, proof_ids_of_seq, consumed_from,
    rewrite_vec,
};
use crate::state::RunState;
use crate::engine::{Engine, EngineEvent, worktop_amount};

verus! {

/// Represents a validated transaction.
#[derive(Debug, PartialEq, Eq)]
pub struct ValidatedTransaction {
    pub raw_hash: crate::types::Hash,
    pub instructions: Vec<ValidatedInstruction>,
    pub signers: Vec<EcdsaPublicKey>,
}

/// The instruction set a validated transaction is made of.
#[derive(Debug, PartialEq, Eq)]
pub enum ValidatedInstruction {
    TakeFromWorktop { resource_address: ResourceAddress },
    TakeFromWorktopByAmount { amount: Decimal, resource_address: ResourceAddress },
    TakeFromWorktopByIds { ids: Vec<NonFungibleId>, resource_address: ResourceAddress },
    ReturnToWorktop { bucket_id: BucketId },
    AssertWorktopContains { resource_address: ResourceAddress },
    AssertWorktopContainsByAmount { amount: Decimal, resource_address: ResourceAddress },
    AssertWorktopContainsByIds { ids: Vec<NonFungibleId>, resource_address: ResourceAddress },
    PopFromAuthZone,
    PushToAuthZone { proof_id: ProofId },
    ClearAuthZone,
    CreateProofFromAuthZone { resource_address: ResourceAddress },
    CreateProofFromAuthZoneByAmount { amount: Decimal, resource_address: ResourceAddress },
    CreateProofFromAuthZoneByIds { ids: Vec<NonFungibleId>, resource_address: ResourceAddress },
    CreateProofFromBucket { bucket_id: BucketId },
    CloneProof { proof_id: ProofId },
    DropProof { proof_id: ProofId },
    CallFunction {
        package_address: PackageAddress,
        blueprint_name: String,
        function: String,
        args: Vec<ScryptoValue>,
    },
    CallMethod {
        component_address: ComponentAddress,
        method: String,
        args: Vec<ScryptoValue>,
    },
    CallMethodWithAllResources { component_address: ComponentAddress, method: String },
    PublishPackage { code: Vec<u8> },
}

/// The two run states agree on everything observable.
pub open spec fn same_run_state(a: RunState, b: RunState) -> bool {
    &&& a.bucket_id_mapping@ == b.bucket_id_mapping@
    &&& a.proof_id_mapping@ == b.proof_id_mapping@
    &&& a.id_allocator == b.id_allocator
    &&& a.bucket_keys_ever@ == b.bucket_keys_ever@
    &&& a.proof_keys_ever@ == b.proof_keys_ever@
}

/// The engine's abstract state is untouched.
pub open spec fn engine_state_unchanged<E: Engine>(epre: E, epost: E) -> bool {
    &&& epost.live_buckets() == epre.live_buckets()
    &&& epost.live_proofs() == epre.live_proofs()
    &&& epost.auth_zone() == epre.auth_zone()
    &&& epost.worktop() == epre.worktop()
}

/// One translation table against the engine-scoped ids the transaction
/// owns: every value is live, and no two keys share a value.
pub open spec fn side_live(m: Map<u32, u32>, live: Set<u32>) -> bool {
    &&& forall|k: u32| #[trigger] m.dom().contains(k) ==> live.contains(m[k])
    &&& forall|k1: u32, k2: u32|
        #![trigger m.dom().contains(k1), m.dom().contains(k2)]
        m.dom().contains(k1) && m.dom().contains(k2) && k1 != k2 ==> m[k1] != m[k2]
}

/// Both translation tables refer only to live engine-scoped ids.
pub open spec fn tables_live<E: Engine>(s: RunState, e: E) -> bool {
    &&& side_live(s.bucket_id_mapping@, e.live_buckets())
    &&& side_live(s.proof_id_mapping@, e.live_proofs())
}

/// A freshly allocated id bound to a fresh engine id preserves liveness.
proof fn lemma_side_insert_fresh(m: Map<u32, u32>, live: Set<u32>, k: u32, v: u32)
    requires
        side_live(m, live),
        !m.dom().contains(k),
        !live.contains(v),
    ensures
        side_live(m.insert(k, v), live.insert(v)),
{
}

/// Consuming a table entry together with its engine id preserves liveness.
proof fn lemma_side_remove(m: Map<u32, u32>, live: Set<u32>, k: u32)
    requires
        side_live(m, live),
        m.dom().contains(k),
    ensures
        side_live(m.remove(k), live.remove(m[k])),
{
}

/// After an invocation consumed the ids embedded in its arguments, the
/// remaining table entries still refer to live ids.
proof fn lemma_side_call(
    m_pre: Map<u32, u32>,
    m_post: Map<u32, u32>,
    live_pre: Set<u32>,
    live_post: Set<u32>,
    consumed: Set<u32>,
)
    requires
        side_live(m_pre, live_pre),
        m_post.submap_of(m_pre),
        forall|eid: u32| #[trigger] consumed.contains(eid) ==> consumed_from(m_pre, m_post, eid),
        forall|id: u32| #[trigger] live_post.contains(id) <==> live_pre.contains(id)
            && !consumed.contains(id),
    ensures
        side_live(m_post, live_post),
{
    assert forall|k: u32| #[trigger] m_post.dom().contains(k)
        implies live_post.contains(m_post[k]) by {
        assert(m_pre.dom().contains(k));
        let v = m_pre[k];
        assert(live_pre.contains(v));
        if consumed.contains(v) {
            let k2 = choose|k2: u32| #[trigger] m_pre.dom().contains(k2)
                && !m_post.dom().contains(k2) && m_pre[k2] == v;
            assert(k2 != k);
            assert(m_pre[k] != m_pre[k2]);
            assert(false);
        }
    }
    assert forall|k1: u32, k2: u32|
        #![trigger m_post.dom().contains(k1), m_post.dom().contains(k2)]
        m_post.dom().contains(k1) && m_post.dom().contains(k2) && k1 != k2
        implies m_post[k1] != m_post[k2] by {
        assert(m_pre.dom().contains(k1));
        assert(m_pre.dom().contains(k2));
    }
}

/// The counter's next id was never a table key.
proof fn lemma_next_not_in_table(m: Map<u32, u32>, keys: Seq<u32>, next: u32)
    requires
        forall|k: u32| #[trigger] m.dom().contains(k) ==> keys.contains(k),
        forall|i: int| 0 <= i < keys.len() ==> #[trigger] keys[i] < next,
    ensures
        !m.dom().contains(next),
{
    if m.dom().contains(next) {
        let j = choose|j: int| 0 <= j < keys.len() && keys[j] == next;
        assert(keys[j] < next);
    }
}

/// What one dispatched instruction does: how the run state, the engine
/// and the emitted value relate, case by case.
pub open spec fn instruction_post<E: Engine>(
    inst: ValidatedInstruction,
    pre: RunState,
    epre: E,
    post: RunState,
    epost: E,
    r: Result<ScryptoValue, RuntimeError>,
) -> bool {
    match inst {
        ValidatedInstruction::TakeFromWorktop { resource_address } => {
            if pre.id_allocator.next_bucket_id == u32::MAX {
                alloc_failed(pre, epre, post, epost, r)
            } else {
                match r {
                    Ok(v) => bucket_create_ok(pre, post, epre, epost, v) && epost.log()
                        == epre.log().push(
                        (EngineEvent::TakeAllFromWorktop {
                            resource_address,
                            result: Ok(post.bucket_id_mapping@[pre.id_allocator.next_bucket_id]),
                        }),
                    ),
                    Err(e) => bucket_create_err(pre, post) && engine_state_unchanged(epre, epost)
                        && epost.log() == epre.log().push(
                        (EngineEvent::TakeAllFromWorktop { resource_address, result: Err(e) }),
                    ),
                }
            }
        },
        ValidatedInstruction::TakeFromWorktopByAmount { amount, resource_address } => {
            if pre.id_allocator.next_bucket_id == u32::MAX {
                alloc_failed(pre, epre, post, epost, r)
            } else {
                match r {
                    Ok(v) => bucket_create_ok(pre, post, epre, epost, v) && epost.log()
                        == epre.log().push(
                        (EngineEvent::TakeFromWorktop {
                            amount,
                            resource_address,
                            result: Ok(post.bucket_id_mapping@[pre.id_allocator.next_bucket_id]),
                        }),
                    ),
                    Err(e) => bucket_create_err(pre, post) && engine_state_unchanged(epre, epost)
                        && epost.log() == epre.log().push(
                        (EngineEvent::TakeFromWorktop { amount, resource_address, result: Err(e) }),
                    ),
                }
            }
        },
        ValidatedInstruction::TakeFromWorktopByIds { ids, resource_address } => {
            if pre.id_allocator.next_bucket_id == u32::MAX {
                alloc_failed(pre, epre, post, epost, r)
            } else {
                match r {
                    Ok(v) => bucket_create_ok(pre, post, epre, epost, v)
                        && ids@.to_set().subset_of(epre.worktop_ids(resource_address.0))
                        && epost.worktop_ids(resource_address.0) == epre.worktop_ids(
                        resource_address.0,
                    ).difference(ids@.to_set()) && epost.log()
                        == epre.log().push(
                        (EngineEvent::TakeNonFungiblesFromWorktop {
                            ids: ids@,
                            resource_address,
                            result: Ok(post.bucket_id_mapping@[pre.id_allocator.next_bucket_id]),
                        }),
                    ),
                    Err(e) => bucket_create_err(pre, post) && engine_state_unchanged(epre, epost)
                        && epost.log() == epre.log().push(
                        (EngineEvent::TakeNonFungiblesFromWorktop {
                            ids: ids@,
                            resource_address,
                            result: Err(e),
                        }),
                    ),
                }
            }
        },
        ValidatedInstruction::ReturnToWorktop { bucket_id } => {
            if !pre.bucket_id_mapping@.dom().contains(bucket_id) {
                &&& r == Err::<ScryptoValue, RuntimeError>(RuntimeError::BucketNotFound(bucket_id))
                &&& same_run_state(pre, post)
                &&& epost == epre
            } else {
                let eid = pre.bucket_id_mapping@[bucket_id];
                &&& post.bucket_id_mapping@ == pre.bucket_id_mapping@.remove(bucket_id)
                &&& tables_except_bucket_map_unchanged(pre, post)
                &&& match r {
                    Ok(v) => {
                        &&& v == ScryptoValue::Unit
                        &&& epre.live_buckets().contains(eid)
                        &&& epost.live_buckets() == epre.live_buckets().remove(eid)
                        &&& epost.live_proofs() == epre.live_proofs()
                        &&& epost.auth_zone() == epre.auth_zone()
                        &&& epost.log() == epre.log().push(
                            (EngineEvent::ReturnToWorktop { bucket_id: eid, result: Ok(()) }),
                        )
                    },
                    Err(e) => {
                        &&& engine_state_unchanged(epre, epost)
                        &&& epost.log() == epre.log().push(
                            (EngineEvent::ReturnToWorktop { bucket_id: eid, result: Err(e) }),
                        )
                    },
                }
            }
        },
        ValidatedInstruction::AssertWorktopContains { resource_address } => {
            &&& same_run_state(pre, post)
            &&& engine_state_unchanged(epre, epost)
            &&& (r is Ok <==> worktop_amount(epre.worktop(), resource_address.0) > 0)
            &&& match r {
                Ok(v) => v == ScryptoValue::Unit && epost.log() == epre.log().push(
                    (EngineEvent::AssertWorktopContains { resource_address, result: Ok(()) }),
                ),
                Err(e) => epost.log() == epre.log().push(
                    (EngineEvent::AssertWorktopContains { resource_address, result: Err(e) }),
                ),
            }
        },
        ValidatedInstruction::AssertWorktopContainsByAmount { amount, resource_address } => {
            &&& same_run_state(pre, post)
            &&& engine_state_unchanged(epre, epost)
            &&& (r is Ok <==> worktop_amount(epre.worktop(), resource_address.0) >= amount.0)
            &&& match r {
                Ok(v) => v == ScryptoValue::Unit && epost.log() == epre.log().push(
                    (EngineEvent::AssertWorktopContainsByAmount {
                        amount,
                        resource_address,
                        result: Ok(()),
                    }),
                ),
                Err(e) => epost.log() == epre.log().push(
                    (EngineEvent::AssertWorktopContainsByAmount {
                        amount,
                        resource_address,
                        result: Err(e),
                    }),
                ),
            }
        },
        ValidatedInstruction::AssertWorktopContainsByIds { ids, resource_address } => {
            &&& same_run_state(pre, post)
            &&& engine_state_unchanged(epre, epost)
            &&& (r is Ok <==> ids@.to_set().subset_of(epre.worktop_ids(resource_address.0)))
            &&& match r {
                Ok(v) => v == ScryptoValue::Unit && epost.log() == epre.log().push(
                    (EngineEvent::AssertWorktopContainsByIds {
                        ids: ids@,
                        resource_address,
                        result: Ok(()),
                    }),
                ),
                Err(e) => epost.log() == epre.log().push(
                    (EngineEvent::AssertWorktopContainsByIds {
                        ids: ids@,
                        resource_address,
                        result: Err(e),
                    }),
                ),
            }
        },
        ValidatedInstruction::PopFromAuthZone => {
            if pre.id_allocator.next_proof_id == u32::MAX {
                alloc_failed(pre, epre, post, epost, r)
            } else {
                match r {
                    Ok(v) => {
                        let nid = pre.id_allocator.next_proof_id;
                        let eid = post.proof_id_mapping@[nid];
                        &&& proof_create_ok(pre, post, epre, epost, v)
                        &&& epre.auth_zone().len() > 0
                        &&& eid == epre.auth_zone().last()
                        &&& epost.auth_zone() == epre.auth_zone().drop_last()
                        &&& epost.log() == epre.log().push(
                            (EngineEvent::PopFromAuthZone { result: Ok(eid) }),
                        )
                    },
                    Err(e) => proof_create_err(pre, post) && engine_state_unchanged(epre, epost)
                        && epost.log() == epre.log().push(
                        (EngineEvent::PopFromAuthZone { result: Err(e) }),
                    ),
                }
            }
        },
        ValidatedInstruction::PushToAuthZone { proof_id } => {
            if !pre.proof_id_mapping@.dom().contains(proof_id) {
                &&& r == Err::<ScryptoValue, RuntimeError>(RuntimeError::ProofNotFound(proof_id))
                &&& same_run_state(pre, post)
                &&& epost == epre
            } else {
                let eid = pre.proof_id_mapping@[proof_id];
                &&& post.proof_id_mapping@ == pre.proof_id_mapping@.remove(proof_id)
                &&& tables_except_proof_map_unchanged(pre, post)
                &&& match r {
                    Ok(v) => {
                        &&& v == ScryptoValue::Unit
                        &&& epre.live_proofs().contains(eid)
                        &&& epost.live_proofs() == epre.live_proofs().remove(eid)
                        &&& epost.auth_zone() == epre.auth_zone().push(eid)
                        &&& epost.live_buckets() == epre.live_buckets()
                        &&& epost.log() == epre.log().push(
                            (EngineEvent::PushToAuthZone { proof_id: eid, result: Ok(()) }),
                        )
                    },
                    Err(e) => {
                        &&& engine_state_unchanged(epre, epost)
                        &&& epost.log() == epre.log().push(
                            (EngineEvent::PushToAuthZone { proof_id: eid, result: Err(e) }),
                        )
                    },
                }
            }
        },
        ValidatedInstruction::ClearAuthZone => {
            &&& post.proof_id_mapping@ == Map::<ProofId, ProofId>::empty()
            &&& tables_except_proof_map_unchanged(pre, post)
            &&& epost.live_buckets() == epre.live_buckets()
            &&& epost.live_proofs() == epre.live_proofs()
            &&& epost.worktop() == epre.worktop()
            &&& match r {
                Ok(v) => {
                    &&& v == ScryptoValue::Unit
                    &&& epost.auth_zone() == Seq::<ProofId>::empty()
                    &&& epost.log() == epre.log().push(
                        (EngineEvent::DropAllAuthZoneProofs { result: Ok(()) }),
                    )
                },
                Err(e) => {
                    &&& epost.auth_zone() == epre.auth_zone()
                    &&& epost.log() == epre.log().push(
                        (EngineEvent::DropAllAuthZoneProofs { result: Err(e) }),
                    )
                },
            }
        },
        ValidatedInstruction::CreateProofFromAuthZone { resource_address } => {
            if pre.id_allocator.next_proof_id == u32::MAX {
                alloc_failed(pre, epre, post, epost, r)
            } else {
                match r {
                    Ok(v) => proof_create_ok(pre, post, epre, epost, v) && epost.auth_zone()
                        == epre.auth_zone() && epost.log() == epre.log().push(
                        (EngineEvent::CreateAuthZoneProof {
                            resource_address,
                            result: Ok(post.proof_id_mapping@[pre.id_allocator.next_proof_id]),
                        }),
                    ),
                    Err(e) => proof_create_err(pre, post) && engine_state_unchanged(epre, epost)
                        && epost.log() == epre.log().push(
                        (EngineEvent::CreateAuthZoneProof { resource_address, result: Err(e) }),
                    ),
                }
            }
        },
        ValidatedInstruction::CreateProofFromAuthZoneByAmount { amount, resource_address } => {
            if pre.id_allocator.next_proof_id == u32::MAX {
                alloc_failed(pre, epre, post, epost, r)
            } else {
                match r {
                    Ok(v) => proof_create_ok(pre, post, epre, epost, v) && epost.auth_zone()
                        == epre.auth_zone() && epost.log() == epre.log().push(
                        (EngineEvent::CreateAuthZoneProofByAmount {
                            amount,
                            resource_address,
                            result: Ok(post.proof_id_mapping@[pre.id_allocator.next_proof_id]),
                        }),
                    ),
                    Err(e) => proof_create_err(pre, post) && engine_state_unchanged(epre, epost)
                        && epost.log() == epre.log().push(
                        (EngineEvent::CreateAuthZoneProofByAmount {
                            amount,
                            resource_address,
                            result: Err(e),
                        }),
                    ),
                }
            }
        },
        ValidatedInstruction::CreateProofFromAuthZoneByIds { ids, resource_address } => {
            if pre.id_allocator.next_proof_id == u32::MAX {
                alloc_failed(pre, epre, post, epost, r)
            } else {
                match r {
                    Ok(v) => proof_create_ok(pre, post, epre, epost, v) && epost.auth_zone()
                        == epre.auth_zone() && epost.log() == epre.log().push(
                        (EngineEvent::CreateAuthZoneProofByIds {
                            ids: ids@,
                            resource_address,
                            result: Ok(post.proof_id_mapping@[pre.id_allocator.next_proof_id]),
                        }),
                    ),
                    Err(e) => proof_create_err(pre, post) && engine_state_unchanged(epre, epost)
                        && epost.log() == epre.log().push(
                        (EngineEvent::CreateAuthZoneProofByIds {
                            ids: ids@,
                            resource_address,
                            result: Err(e),
                        }),
                    ),
                }
            }
        },
        ValidatedInstruction::CreateProofFromBucket { bucket_id } => {
            if pre.id_allocator.next_proof_id == u32::MAX {
                alloc_failed(pre, epre, post, epost, r)
            } else if !pre.bucket_id_mapping@.dom().contains(bucket_id) {
                &&& r == Err::<ScryptoValue, RuntimeError>(RuntimeError::BucketNotFound(bucket_id))
                &&& proof_create_err(pre, post)
                &&& epost == epre
            } else {
                let beid = pre.bucket_id_mapping@[bucket_id];
                match r {
                    Ok(v) => {
                        &&& proof_create_ok(pre, post, epre, epost, v)
                        &&& epre.live_buckets().contains(beid)
                        &&& epost.auth_zone() == epre.auth_zone()
                        &&& epost.log() == epre.log().push(
                            (EngineEvent::CreateBucketProof {
                                bucket_id: beid,
                                result: Ok(
                                    post.proof_id_mapping@[pre.id_allocator.next_proof_id],
                                ),
                            }),
                        )
                    },
                    Err(e) => proof_create_err(pre, post) && engine_state_unchanged(epre, epost)
                        && epost.log() == epre.log().push(
                        (EngineEvent::CreateBucketProof { bucket_id: beid, result: Err(e) }),
                    ),
                }
            }
        },
        ValidatedInstruction::CloneProof { proof_id } => {
            if pre.id_allocator.next_proof_id == u32::MAX {
                alloc_failed(pre, epre, post, epost, r)
            } else if !pre.proof_id_mapping@.dom().contains(proof_id) {
                &&& r == Err::<ScryptoValue, RuntimeError>(RuntimeError::ProofNotFound(proof_id))
                &&& proof_create_err(pre, post)
                &&& epost == epre
            } else {
                let seid = pre.proof_id_mapping@[proof_id];
                match r {
                    Ok(v) => {
                        &&& proof_create_ok(pre, post, epre, epost, v)
                        &&& epre.live_proofs().contains(seid)
                        &&& epost.auth_zone() == epre.auth_zone()
                        &&& epost.log() == epre.log().push(
                            (EngineEvent::CloneProof {
                                proof_id: seid,
                                result: Ok(
                                    post.proof_id_mapping@[pre.id_allocator.next_proof_id],
                                ),
                            }),
                        )
                    },
                    Err(e) => proof_create_err(pre, post) && engine_state_unchanged(epre, epost)
                        && epost.log() == epre.log().push(
                        (EngineEvent::CloneProof { proof_id: seid, result: Err(e) }),
                    ),
                }
            }
        },
        ValidatedInstruction::DropProof { proof_id } => {
            if !pre.proof_id_mapping@.dom().contains(proof_id) {
                &&& r == Err::<ScryptoValue, RuntimeError>(RuntimeError::ProofNotFound(proof_id))
                &&& same_run_state(pre, post)
                &&& epost == epre
            } else {
                let eid = pre.proof_id_mapping@[proof_id];
                &&& post.proof_id_mapping@ == pre.proof_id_mapping@.remove(proof_id)
                &&& tables_except_proof_map_unchanged(pre, post)
                &&& match r {
                    Ok(v) => {
                        &&& v == ScryptoValue::Unit
                        &&& epre.live_proofs().contains(eid)
                        &&& epost.live_proofs() == epre.live_proofs().remove(eid)
                        &&& epost.live_buckets() == epre.live_buckets()
                        &&& epost.auth_zone() == epre.auth_zone()
                        &&& epost.log() == epre.log().push(
                            (EngineEvent::DropProof { proof_id: eid, result: Ok(()) }),
                        )
                    },
                    Err(e) => {
                        &&& engine_state_unchanged(epre, epost)
                        &&& epost.log() == epre.log().push(
                            (EngineEvent::DropProof { proof_id: eid, result: Err(e) }),
                        )
                    },
                }
            }
        },
        ValidatedInstruction::CallFunction { package_address, blueprint_name, function, args } => {
            let (sr, sp, sb) = rewrite_seq_spec(
                view_seq(args@),
                pre.proof_id_mapping@,
                pre.bucket_id_mapping@,
            );
            &&& post.proof_id_mapping@ == sp
            &&& post.bucket_id_mapping@ == sb
            &&& post.bucket_keys_ever@ == pre.bucket_keys_ever@
            &&& post.proof_keys_ever@ == pre.proof_keys_ever@
            &&& post.id_allocator == pre.id_allocator
            &&& post.proof_id_mapping@.submap_of(pre.proof_id_mapping@)
            &&& post.bucket_id_mapping@.submap_of(pre.bucket_id_mapping@)
            &&& match sr {
                Err(e) => r == Err::<ScryptoValue, RuntimeError>(e) && epost == epre,
                Ok(new_args) => {
                    &&& forall|eid: u32| #[trigger] bucket_ids_of_seq(new_args).contains(eid)
                        ==> consumed_from(pre.bucket_id_mapping@, post.bucket_id_mapping@, eid)
                    &&& forall|eid: u32| #[trigger] proof_ids_of_seq(new_args).contains(eid)
                        ==> consumed_from(pre.proof_id_mapping@, post.proof_id_mapping@, eid)
                    &&& epost.log() == epre.log().push(
                        (EngineEvent::CallFunction {
                            package_address,
                            blueprint_name: blueprint_name@,
                            function: function@,
                            args: new_args,
                            result: r,
                        }),
                    )
                    &&& epost.auth_zone() == epre.auth_zone()
                    &&& r matches Ok(_) ==> {
                        &&& forall|id: BucketId| #[trigger] epost.live_buckets().contains(id)
                            <==> epre.live_buckets().contains(id) && !bucket_ids_of_seq(
                            new_args,
                        ).contains(id)
                        &&& forall|id: ProofId| #[trigger] epost.live_proofs().contains(id)
                            <==> epre.live_proofs().contains(id) && !proof_ids_of_seq(
                            new_args,
                        ).contains(id)
                    }
                },
            }
        },
        ValidatedInstruction::CallMethod { component_address, method, args } => {
            let (sr, sp, sb) = rewrite_seq_spec(
                view_seq(args@),
                pre.proof_id_mapping@,
                pre.bucket_id_mapping@,
            );
            &&& post.proof_id_mapping@ == sp
            &&& post.bucket_id_mapping@ == sb
            &&& post.bucket_keys_ever@ == pre.bucket_keys_ever@
            &&& post.proof_keys_ever@ == pre.proof_keys_ever@
            &&& post.id_allocator == pre.id_allocator
            &&& post.proof_id_mapping@.submap_of(pre.proof_id_mapping@)
            &&& post.bucket_id_mapping@.submap_of(pre.bucket_id_mapping@)
            &&& match sr {
                Err(e) => r == Err::<ScryptoValue, RuntimeError>(e) && epost == epre,
                Ok(new_args) => {
                    &&& forall|eid: u32| #[trigger] bucket_ids_of_seq(new_args).contains(eid)
                        ==> consumed_from(pre.bucket_id_mapping@, post.bucket_id_mapping@, eid)
                    &&& forall|eid: u32| #[trigger] proof_ids_of_seq(new_args).contains(eid)
                        ==> consumed_from(pre.proof_id_mapping@, post.proof_id_mapping@, eid)
                    &&& epost.log() == epre.log().push(
                        (EngineEvent::CallMethod {
                            component_address,
                            method: method@,
                            args: new_args,
                            result: r,
                        }),
                    )
                    &&& epost.auth_zone() == epre.auth_zone()
                    &&& r matches Ok(_) ==> {
                        &&& forall|id: BucketId| #[trigger] epost.live_buckets().contains(id)
                            <==> epre.live_buckets().contains(id) && !bucket_ids_of_seq(
                            new_args,
                        ).contains(id)
                        &&& forall|id: ProofId| #[trigger] epost.live_proofs().contains(id)
                            <==> epre.live_proofs().contains(id) && !proof_ids_of_seq(
                            new_args,
                        ).contains(id)
                    }
                },
            }
        },
        ValidatedInstruction::CallMethodWithAllResources { component_address, method } => {
            &&& same_run_state(pre, post)
            &&& epost.log() == epre.log().push(
                (EngineEvent::CallMethodWithAllResources {
                    component_address,
                    method: method@,
                    result: r,
                }),
            )
            &&& epost.auth_zone() == epre.auth_zone()
            &&& r matches Ok(_) ==> epost.live_buckets() == epre.live_buckets()
                && epost.live_proofs() == epre.live_proofs()
        },
        ValidatedInstruction::PublishPackage { code } => {
            &&& same_run_state(pre, post)
            &&& engine_state_unchanged(epre, epost)
            &&& match r {
                Ok(v) => v matches ScryptoValue::Package(a) && epost.log() == epre.log().push(
                    (EngineEvent::PublishPackage { code: code@, result: Ok(a) }),
                ),
                Err(e) => epost.log() == epre.log().push(
                    (EngineEvent::PublishPackage { code: code@, result: Err(e) }),
                ),
            }
        },
    }
}

/// The transaction-scoped id space is exhausted: nothing happened.
pub open spec fn alloc_failed<E: Engine>(
    pre: RunState,
    epre: E,
    post: RunState,
    epost: E,
    r: Result<ScryptoValue, RuntimeError>,
) -> bool {
    &&& r == Err::<ScryptoValue, RuntimeError>(
        RuntimeError::IdAllocatorError(IdAllocatorError::OutOfId),
    )
    &&& same_run_state(pre, post)
    &&& epost == epre
}

/// All run-state parts other than the bucket table are unchanged.
pub open spec fn tables_except_bucket_map_unchanged(pre: RunState, post: RunState) -> bool {
    &&& post.proof_id_mapping@ == pre.proof_id_mapping@
    &&& post.id_allocator == pre.id_allocator
    &&& post.bucket_keys_ever@ == pre.bucket_keys_ever@
    &&& post.proof_keys_ever@ == pre.proof_keys_ever@
}

/// All run-state parts other than the proof table are unchanged.
pub open spec fn tables_except_proof_map_unchanged(pre: RunState, post: RunState) -> bool {
    &&& post.bucket_id_mapping@ == pre.bucket_id_mapping@
    &&& post.id_allocator == pre.id_allocator
    &&& post.bucket_keys_ever@ == pre.bucket_keys_ever@
    &&& post.proof_keys_ever@ == pre.proof_keys_ever@
}

/// A new bucket was bound: fresh scoped id, fresh engine id.
pub open spec fn bucket_create_ok<E: Engine>(
    pre: RunState,
    post: RunState,
    epre: E,
    epost: E,
    v: ScryptoValue,
) -> bool {
    let nid = pre.id_allocator.next_bucket_id;
    let eid = post.bucket_id_mapping@[nid];
    &&& post.id_allocator.next_bucket_id == nid + 1
    &&& post.id_allocator.next_proof_id == pre.id_allocator.next_proof_id
    &&& post.proof_id_mapping@ == pre.proof_id_mapping@
    &&& post.proof_keys_ever@ == pre.proof_keys_ever@
    &&& post.bucket_id_mapping@ == pre.bucket_id_mapping@.insert(nid, eid)
    &&& post.bucket_keys_ever@ == pre.bucket_keys_ever@.push(nid)
    &&& v == ScryptoValue::Bucket(nid)
    &&& !epre.live_buckets().contains(eid)
    &&& epost.live_buckets() == epre.live_buckets().insert(eid)
    &&& epost.live_proofs() == epre.live_proofs()
    &&& epost.auth_zone() == epre.auth_zone()
}

/// A bucket allocation consumed a scoped id but the engine refused.
pub open spec fn bucket_create_err(pre: RunState, post: RunState) -> bool {
    &&& post.id_allocator.next_bucket_id == pre.id_allocator.next_bucket_id + 1
    &&& post.id_allocator.next_proof_id == pre.id_allocator.next_proof_id
    &&& post.bucket_id_mapping@ == pre.bucket_id_mapping@
    &&& post.proof_id_mapping@ == pre.proof_id_mapping@
    &&& post.bucket_keys_ever@ == pre.bucket_keys_ever@
    &&& post.proof_keys_ever@ == pre.proof_keys_ever@
}

/// A new proof was bound: fresh scoped id, fresh engine id.
pub open spec fn proof_create_ok<E: Engine>(
    pre: RunState,
    post: RunState,
    epre: E,
    epost: E,
    v: ScryptoValue,
) -> bool {
    let nid = pre.id_allocator.next_proof_id;
    let eid = post.proof_id_mapping@[nid];
    &&& post.id_allocator.next_proof_id == nid + 1
    &&& post.id_allocator.next_bucket_id == pre.id_allocator.next_bucket_id
    &&& post.bucket_id_mapping@ == pre.bucket_id_mapping@
    &&& post.bucket_keys_ever@ == pre.bucket_keys_ever@
    &&& post.proof_id_mapping@ == pre.proof_id_mapping@.insert(nid, eid)
    &&& post.proof_keys_ever@ == pre.proof_keys_ever@.push(nid)
    &&& v == ScryptoValue::Proof(nid)
    &&& !epre.live_proofs().contains(eid)
    &&& epost.live_proofs() == epre.live_proofs().insert(eid)
    &&& epost.live_buckets() == epre.live_buckets()
}

/// A proof allocation consumed a scoped id but nothing was bound.
pub open spec fn proof_create_err(pre: RunState, post: RunState) -> bool {
    &&& post.id_allocator.next_proof_id == pre.id_allocator.next_proof_id + 1
    &&& post.id_allocator.next_bucket_id == pre.id_allocator.next_bucket_id
    &&& post.bucket_id_mapping@ == pre.bucket_id_mapping@
    &&& post.proof_id_mapping@ == pre.proof_id_mapping@
    &&& post.bucket_keys_ever@ == pre.bucket_keys_ever@
    &&& post.proof_keys_ever@ == pre.proof_keys_ever@
}

/// New log entries of one instruction: at most one, never a finalizer op.
proof fn lemma_instruction_log_shape<E: Engine>(
    inst: ValidatedInstruction,
    pre: RunState,
    epre: E,
    post: RunState,
    epost: E,
    r: Result<ScryptoValue, RuntimeError>,
)
    requires
        instruction_post(inst, pre, epre, post, epost, r),
    ensures
        epost.log().len() >= epre.log().len(),
        epost.log().len() <= epre.log().len() + 1,
        epost.log().subrange(0, epre.log().len() as int) == epre.log(),
        forall|j: int| epre.log().len() <= j < epost.log().len()
            ==> !(#[trigger] epost.log()[j] is DropAllProofs) && !(epost.log()[j] is CheckResource),
{
    assert forall|ev: EngineEvent| (#[trigger] epre.log().push(ev)).subrange(
        0,
        epre.log().len() as int,
    ) == epre.log() by {
        assert(epre.log().push(ev).subrange(0, epre.log().len() as int) =~= epre.log());
    }
    assert(epre.log().subrange(0, epre.log().len() as int) =~= epre.log());
}

/// One instruction keeps the translation tables referring to live ids.
proof fn lemma_instruction_tables_live<E: Engine>(
    inst: ValidatedInstruction,
    pre: RunState,
    epre: E,
    post: RunState,
    epost: E,
    r: Result<ScryptoValue, RuntimeError>,
)
    requires
        instruction_post(inst, pre, epre, post, epost, r),
        pre.wf(),
        tables_live(pre, epre),
        r is Ok,
    ensures
        tables_live(post, epost),
{
    match inst {
        ValidatedInstruction::TakeFromWorktop { .. }
        | ValidatedInstruction::TakeFromWorktopByAmount { .. }
        | ValidatedInstruction::TakeFromWorktopByIds { .. } => {
            let nid = pre.id_allocator.next_bucket_id;
            let eid = post.bucket_id_mapping@[nid];
            lemma_next_not_in_table(pre.bucket_id_mapping@, pre.bucket_keys_ever@, nid);
            lemma_side_insert_fresh(pre.bucket_id_mapping@, epre.live_buckets(), nid, eid);
        },
        ValidatedInstruction::ReturnToWorktop { bucket_id } => {
            lemma_side_remove(pre.bucket_id_mapping@, epre.live_buckets(), bucket_id);
        },
        ValidatedInstruction::PopFromAuthZone
        | ValidatedInstruction::CreateProofFromAuthZone { .. }
        | ValidatedInstruction::CreateProofFromAuthZoneByAmount { .. }
        | ValidatedInstruction::CreateProofFromAuthZoneByIds { .. }
        | ValidatedInstruction::CreateProofFromBucket { .. }
        | ValidatedInstruction::CloneProof { .. } => {
            let nid = pre.id_allocator.next_proof_id;
            let eid = post.proof_id_mapping@[nid];
            lemma_next_not_in_table(pre.proof_id_mapping@, pre.proof_keys_ever@, nid);
            lemma_side_insert_fresh(pre.proof_id_mapping@, epre.live_proofs(), nid, eid);
        },
        ValidatedInstruction::PushToAuthZone { proof_id } => {
            lemma_side_remove(pre.proof_id_mapping@, epre.live_proofs(), proof_id);
        },
        ValidatedInstruction::DropProof { proof_id } => {
            lemma_side_remove(pre.proof_id_mapping@, epre.live_proofs(), proof_id);
        },
        ValidatedInstruction::ClearAuthZone => {
        },
        ValidatedInstruction::CallFunction { args, .. } => {
            let (sr, _sp, _sb) = rewrite_seq_spec(
                view_seq(args@),
                pre.proof_id_mapping@,
                pre.bucket_id_mapping@,
            );
            match sr {
                Ok(new_args) => {
                    lemma_side_call(
                        pre.bucket_id_mapping@,
                        post.bucket_id_mapping@,
                        epre.live_buckets(),
                        epost.live_buckets(),
                        bucket_ids_of_seq(new_args),
                    );
                    lemma_side_call(
                        pre.proof_id_mapping@,
                        post.proof_id_mapping@,
                        epre.live_proofs(),
                        epost.live_proofs(),
                        proof_ids_of_seq(new_args),
                    );
                },
                Err(_) => {},
            }
        },
        ValidatedInstruction::CallMethod { args, .. } => {
            let (sr, _sp, _sb) = rewrite_seq_spec(
                view_seq(args@),
                pre.proof_id_mapping@,
                pre.bucket_id_mapping@,
            );
            match sr {
                Ok(new_args) => {
                    lemma_side_call(
                        pre.bucket_id_mapping@,
                        post.bucket_id_mapping@,
                        epre.live_buckets(),
                        epost.live_buckets(),
                        bucket_ids_of_seq(new_args),
                    );
                    lemma_side_call(
                        pre.proof_id_mapping@,
                        post.proof_id_mapping@,
                        epre.live_proofs(),
                        epost.live_proofs(),
                        proof_ids_of_seq(new_args),
                    );
                },
                Err(_) => {},
            }
        },
        _ => {},
    }
}

impl ValidatedTransaction {
    /// Rewrites every bucket and proof placeholder embedded in the given
    /// values to the engine-scoped id recorded in the translation tables,
    /// consuming the entries in traversal order.
    pub fn replace_ids(
        values: &Vec<ScryptoValue>,
        proof_id_mapping: &mut HashMap<ProofId, ProofId>,
        bucket_id_mapping: &mut HashMap<BucketId, BucketId>,
    ) -> (r: Result<Vec<ScryptoValue>, RuntimeError>)
        ensures
            ({
                let (sr, sp, sb) = rewrite_seq_spec(
                    view_seq(values@),
                    old(proof_id_mapping)@,
                    old(bucket_id_mapping)@,
                );
                &&& final(proof_id_mapping)@ == sp
                &&& final(bucket_id_mapping)@ == sb
                &&& match (r, sr) {
                    (Ok(ws), Ok(sws)) => view_seq(ws@) == sws,
                    (Err(e), Err(se)) => e == se,
                    _ => false,
                }
            }),
            final(proof_id_mapping)@.submap_of(old(proof_id_mapping)@),
            final(bucket_id_mapping)@.submap_of(old(bucket_id_mapping)@),
            r matches Ok(ws) ==> forall|eid: BucketId|
                #[trigger] bucket_ids_of_seq(view_seq(ws@)).contains(eid)
                ==> consumed_from(old(bucket_id_mapping)@, final(bucket_id_mapping)@, eid),
            r matches Ok(ws) ==> forall|eid: ProofId|
                #[trigger] proof_ids_of_seq(view_seq(ws@)).contains(eid)
                ==> consumed_from(old(proof_id_mapping)@, final(proof_id_mapping)@, eid),
    {
        rewrite_vec(values, proof_id_mapping, bucket_id_mapping)
    }
}

/// Dispatches one instruction: allocates ids, translates, invokes the
/// engine and binds results, exactly as `instruction_post` describes.
pub fn execute_instruction<E: Engine>(
    state: &mut RunState,
    engine: &mut E,
    inst: &ValidatedInstruction,
) -> (r: Result<ScryptoValue, RuntimeError>)
    requires
        old(state).wf(),
        old(engine).inv(),
    ensures
        final(state).wf(),
        final(engine).inv(),
        instruction_post(*inst, *old(state), *old(engine), *final(state), *final(engine), r),
        final(engine).log().len() >= old(engine).log().len(),
        final(engine).log().len() <= old(engine).log().len() + 1,
        final(engine).log().subrange(0, old(engine).log().len() as int) == old(engine).log(),
        forall|j: int| old(engine).log().len() <= j < final(engine).log().len()
            ==> !(#[trigger] final(engine).log()[j] is DropAllProofs)
                && !(final(engine).log()[j] is CheckResource),
        tables_live(*old(state), *old(engine)) && r is Ok
            ==> tables_live(*final(state), *final(engine)),
{
    let r = dispatch(state, engine, inst);
    proof {
        lemma_instruction_log_shape(*inst, *old(state), *old(engine), *state, *engine, r);
        if tables_live(*old(state), *old(engine)) && r is Ok {
            lemma_instruction_tables_live(*inst, *old(state), *old(engine), *state, *engine, r);
        }
    }
    r
}

fn dispatch<E: Engine>(
    state: &mut RunState,
    engine: &mut E,
    inst: &ValidatedInstruction,
) -> (r: Result<ScryptoValue, RuntimeError>)
    requires
        old(state).wf(),
        old(engine).inv(),
    ensures
        final(state).wf(),
        final(engine).inv(),
        instruction_post(*inst, *old(state), *old(engine), *final(state), *final(engine), r),
{
    match inst {
        ValidatedInstruction::TakeFromWorktop { .. }
        | ValidatedInstruction::TakeFromWorktopByAmount { .. }
        | ValidatedInstruction::TakeFromWorktopByIds { .. }
        | ValidatedInstruction::ReturnToWorktop { .. }
        | ValidatedInstruction::AssertWorktopContains { .. }
        | ValidatedInstruction::AssertWorktopContainsByAmount { .. }
        | ValidatedInstruction::AssertWorktopContainsByIds { .. } => dispatch_worktop(
            state,
            engine,
            inst,
        ),
        ValidatedInstruction::PopFromAuthZone
        | ValidatedInstruction::PushToAuthZone { .. }
        | ValidatedInstruction::ClearAuthZone
        | ValidatedInstruction::CreateProofFromAuthZone { .. }
        | ValidatedInstruction::CreateProofFromAuthZoneByAmount { .. }
        | ValidatedInstruction::CreateProofFromAuthZoneByIds { .. } => dispatch_auth_zone(
            state,
            engine,
            inst,
        ),
        ValidatedInstruction::CreateProofFromBucket { .. }
        | ValidatedInstruction::CloneProof { .. }
        | ValidatedInstruction::DropProof { .. } => dispatch_proof_ops(state, engine, inst),
        ValidatedInstruction::CallFunction { .. }
        | ValidatedInstruction::CallMethod { .. }
        | ValidatedInstruction::CallMethodWithAllResources { .. }
        | ValidatedInstruction::PublishPackage { .. } => dispatch_calls(state, engine, inst),
    }
}

#[verifier::rlimit(100)]
#[verifier::spinoff_prover]
fn dispatch_worktop<E: Engine>(
    state: &mut RunState,
    engine: &mut E,
    inst: &ValidatedInstruction,
) -> (r: Result<ScryptoValue, RuntimeError>)
    requires
        old(state).wf(),
        old(engine).inv(),
        (*inst) is TakeFromWorktop || (*inst) is TakeFromWorktopByAmount || (*inst) is TakeFromWorktopByIds || (*inst) is ReturnToWorktop || (*inst) is AssertWorktopContains || (*inst) is AssertWorktopContainsByAmount || (*inst) is AssertWorktopContainsByIds,
    ensures
        final(state).wf(),
        final(engine).inv(),
        instruction_post(*inst, *old(state), *old(engine), *final(state), *final(engine), r),
{
    match inst {
        ValidatedInstruction::TakeFromWorktop { resource_address } => {
            match state.id_allocator.new_bucket_id() {
                Err(e) => Err(RuntimeError::IdAllocatorError(e)),
                Ok(nid) => match engine.take_all_from_worktop(*resource_address) {
                    Ok(eid) => {
                        state.bind_bucket(nid, eid);
                        Ok(ScryptoValue::Bucket(nid))
                    },
                    Err(e) => Err(e),
                },
            }
        },
        ValidatedInstruction::TakeFromWorktopByAmount { amount, resource_address } => {
            match state.id_allocator.new_bucket_id() {
                Err(e) => Err(RuntimeError::IdAllocatorError(e)),
                Ok(nid) => match engine.take_from_worktop(*amount, *resource_address) {
                    Ok(eid) => {
                        state.bind_bucket(nid, eid);
                        Ok(ScryptoValue::Bucket(nid))
                    },
                    Err(e) => Err(e),
                },
            }
        },
        ValidatedInstruction::TakeFromWorktopByIds { ids, resource_address } => {
            match state.id_allocator.new_bucket_id() {
                Err(e) => Err(RuntimeError::IdAllocatorError(e)),
                Ok(nid) => match engine.take_non_fungibles_from_worktop(ids, *resource_address) {
                    Ok(eid) => {
                        state.bind_bucket(nid, eid);
                        Ok(ScryptoValue::Bucket(nid))
                    },
                    Err(e) => Err(e),
                },
            }
        },
        ValidatedInstruction::ReturnToWorktop { bucket_id } => {
            match state.take_bucket(*bucket_id) {
                None => Err(RuntimeError::BucketNotFound(*bucket_id)),
                Some(eid) => {
                    let res = engine.return_to_worktop(eid);
                    proof {
                        match res {
                            Ok(u) => {
                                assert(u == ());
                                assert(res == Ok::<(), RuntimeError>(u));
                            },
                            Err(_) => {},
                        }
                    }
                    match res {
                        Ok(_) => Ok(ScryptoValue::Unit),
                        Err(e) => Err(e),
                    }
                },
            }
        },
        ValidatedInstruction::AssertWorktopContains { resource_address } => {
            {
                let res = engine.assert_worktop_contains(*resource_address);
                proof {
                    match res {
                        Ok(u) => {
                            assert(u == ());
                            assert(res == Ok::<(), RuntimeError>(u));
                        },
                        Err(_) => {},
                    }
                }
                match res {
                    Ok(_) => Ok(ScryptoValue::Unit),
                    Err(e) => Err(e),
                }
            }
        },
        ValidatedInstruction::AssertWorktopContainsByAmount { amount, resource_address } => {
            {
                let res = engine.assert_worktop_contains_by_amount(*amount, *resource_address);
                proof {
                    match res {
                        Ok(u) => {
                            assert(u == ());
                            assert(res == Ok::<(), RuntimeError>(u));
                        },
                        Err(_) => {},
                    }
                }
                match res {
                    Ok(_) => Ok(ScryptoValue::Unit),
                    Err(e) => Err(e),
                }
            }
        },
        ValidatedInstruction::AssertWorktopContainsByIds { ids, resource_address } => {
            {
                let res = engine.assert_worktop_contains_by_ids(ids, *resource_address);
                proof {
                    match res {
                        Ok(u) => {
                            assert(u == ());
                            assert(res == Ok::<(), RuntimeError>(u));
                        },
                        Err(_) => {},
                    }
                }
                match res {
                    Ok(_) => Ok(ScryptoValue::Unit),
                    Err(e) => Err(e),
                }
            }
        },

        // The dispatcher routes only the variants above here.
        _ => {
            proof {
                assert(false);
            }
            Err(RuntimeError::WorktopError)
        },
    }
}

#[verifier::rlimit(100)]
#[verifier::spinoff_prover]
fn dispatch_auth_zone<E: Engine>(
    state: &mut RunState,
    engine: &mut E,
    inst: &ValidatedInstruction,
) -> (r: Result<ScryptoValue, RuntimeError>)
    requires
        old(state).wf(),
        old(engine).inv(),
        (*inst) is PopFromAuthZone || (*inst) is PushToAuthZone || (*inst) is ClearAuthZone || (*inst) is CreateProofFromAuthZone || (*inst) is CreateProofFromAuthZoneByAmount || (*inst) is CreateProofFromAuthZoneByIds,
    ensures
        final(state).wf(),
        final(engine).inv(),
        instruction_post(*inst, *old(state), *old(engine), *final(state), *final(engine), r),
{
    match inst {
        ValidatedInstruction::PopFromAuthZone => {
            match state.id_allocator.new_proof_id() {
                Err(e) => Err(RuntimeError::IdAllocatorError(e)),
                Ok(nid) => match engine.pop_from_auth_zone() {
                    Ok(eid) => {
                        state.bind_proof(nid, eid);
                        Ok(ScryptoValue::Proof(nid))
                    },
                    Err(e) => Err(e),
                },
            }
        },
        ValidatedInstruction::PushToAuthZone { proof_id } => {
            match state.take_proof(*proof_id) {
                None => Err(RuntimeError::ProofNotFound(*proof_id)),
                Some(eid) => {
                    let res = engine.push_to_auth_zone(eid);
                    proof {
                        match res {
                            Ok(u) => {
                                assert(u == ());
                                assert(res == Ok::<(), RuntimeError>(u));
                            },
                            Err(_) => {},
                        }
                    }
                    match res {
                        Ok(_) => Ok(ScryptoValue::Unit),
                        Err(e) => Err(e),
                    }
                },
            }
        },
        ValidatedInstruction::ClearAuthZone => {
            state.clear_proof_table();
            {
                let res = engine.drop_all_auth_zone_proofs();
                proof {
                    match res {
                        Ok(u) => {
                            assert(u == ());
                            assert(res == Ok::<(), RuntimeError>(u));
                        },
                        Err(_) => {},
                    }
                }
                match res {
                    Ok(_) => Ok(ScryptoValue::Unit),
                    Err(e) => Err(e),
                }
            }
        },
        ValidatedInstruction::CreateProofFromAuthZone { resource_address } => {
            match state.id_allocator.new_proof_id() {
                Err(e) => Err(RuntimeError::IdAllocatorError(e)),
                Ok(nid) => match engine.create_auth_zone_proof(*resource_address) {
                    Ok(eid) => {
                        state.bind_proof(nid, eid);
                        Ok(ScryptoValue::Proof(nid))
                    },
                    Err(e) => Err(e),
                },
            }
        },
        ValidatedInstruction::CreateProofFromAuthZoneByAmount { amount, resource_address } => {
            match state.id_allocator.new_proof_id() {
                Err(e) => Err(RuntimeError::IdAllocatorError(e)),
                Ok(nid) => match engine.create_auth_zone_proof_by_amount(
                    *amount,
                    *resource_address,
                ) {
                    Ok(eid) => {
                        state.bind_proof(nid, eid);
                        Ok(ScryptoValue::Proof(nid))
                    },
                    Err(e) => Err(e),
                },
            }
        },
        ValidatedInstruction::CreateProofFromAuthZoneByIds { ids, resource_address } => {
            match state.id_allocator.new_proof_id() {
                Err(e) => Err(RuntimeError::IdAllocatorError(e)),
                Ok(nid) => match engine.create_auth_zone_proof_by_ids(ids, *resource_address) {
                    Ok(eid) => {
                        state.bind_proof(nid, eid);
                        Ok(ScryptoValue::Proof(nid))
                    },
                    Err(e) => Err(e),
                },
            }
        },

        // The dispatcher routes only the variants above here.
        _ => {
            proof {
                assert(false);
            }
            Err(RuntimeError::WorktopError)
        },
    }
}

#[verifier::rlimit(100)]
#[verifier::spinoff_prover]
fn dispatch_proof_ops<E: Engine>(
    state: &mut RunState,
    engine: &mut E,
    inst: &ValidatedInstruction,
) -> (r: Result<ScryptoValue, RuntimeError>)
    requires
        old(state).wf(),
        old(engine).inv(),
        (*inst) is CreateProofFromBucket || (*inst) is CloneProof || (*inst) is DropProof,
    ensures
        final(state).wf(),
        final(engine).inv(),
        instruction_post(*inst, *old(state), *old(engine), *final(state), *final(engine), r),
{
    match inst {
        ValidatedInstruction::CreateProofFromBucket { bucket_id } => {
            match state.id_allocator.new_proof_id() {
                Err(e) => Err(RuntimeError::IdAllocatorError(e)),
                Ok(nid) => match state.peek_bucket(*bucket_id) {
                    None => Err(RuntimeError::BucketNotFound(*bucket_id)),
                    Some(beid) => match engine.txn_create_bucket_proof(beid) {
                        Ok(eid) => {
                            state.bind_proof(nid, eid);
                            Ok(ScryptoValue::Proof(nid))
                        },
                        Err(e) => Err(e),
                    },
                },
            }
        },
        ValidatedInstruction::CloneProof { proof_id } => {
            match state.id_allocator.new_proof_id() {
                Err(e) => Err(RuntimeError::IdAllocatorError(e)),
                Ok(nid) => match state.peek_proof(*proof_id) {
                    None => Err(RuntimeError::ProofNotFound(*proof_id)),
                    Some(seid) => match engine.clone_proof(seid) {
                        Ok(eid) => {
                            state.bind_proof(nid, eid);
                            Ok(ScryptoValue::Proof(nid))
                        },
                        Err(e) => Err(e),
                    },
                },
            }
        },
        ValidatedInstruction::DropProof { proof_id } => {
            match state.take_proof(*proof_id) {
                None => Err(RuntimeError::ProofNotFound(*proof_id)),
                Some(eid) => {
                    let res = engine.drop_proof(eid);
                    proof {
                        match res {
                            Ok(u) => {
                                assert(u == ());
                                assert(res == Ok::<(), RuntimeError>(u));
                            },
                            Err(_) => {},
                        }
                    }
                    match res {
                        Ok(_) => Ok(ScryptoValue::Unit),
                        Err(e) => Err(e),
                    }
                },
            }
        },

        // The dispatcher routes only the variants above here.
        _ => {
            proof {
                assert(false);
            }
            Err(RuntimeError::WorktopError)
        },
    }
}

#[verifier::rlimit(60)]
fn dispatch_calls<E: Engine>(
    state: &mut RunState,
    engine: &mut E,
    inst: &ValidatedInstruction,
) -> (r: Result<ScryptoValue, RuntimeError>)
    requires
        old(state).wf(),
        old(engine).inv(),
        (*inst) is CallFunction || (*inst) is CallMethod || (*inst) is CallMethodWithAllResources || (*inst) is PublishPackage,
    ensures
        final(state).wf(),
        final(engine).inv(),
        instruction_post(*inst, *old(state), *old(engine), *final(state), *final(engine), r),
{
    match inst {
        ValidatedInstruction::CallFunction {
            package_address,
            blueprint_name,
            function,
            args,
        } => {
            let rewritten = ValidatedTransaction::replace_ids(
                args,
                &mut state.proof_id_mapping,
                &mut state.bucket_id_mapping,
            );
            proof {
                assert forall|k: BucketId|
                    #[trigger] state.bucket_id_mapping@.dom().contains(k)
                    implies state.bucket_keys_ever@.contains(k) by {
                    assert(old(state).bucket_id_mapping@.dom().contains(k));
                }
                assert forall|k: ProofId| #[trigger] state.proof_id_mapping@.dom().contains(k)
                    implies state.proof_keys_ever@.contains(k) by {
                    assert(old(state).proof_id_mapping@.dom().contains(k));
                }
            }
            match rewritten {
                Err(e) => Err(e),
                Ok(new_args) => {
                    let ghost na = view_seq(new_args@);
                    let res = engine.txn_call_function(
                        *package_address,
                        blueprint_name,
                        function,
                        new_args,
                    );
                    proof {
                        let (sr, sp, sb) = rewrite_seq_spec(
                            view_seq(args@),
                            old(state).proof_id_mapping@,
                            old(state).bucket_id_mapping@,
                        );
                        assert(sr == Ok::<Seq<crate::value::SpecValue>, RuntimeError>(na));
                        assert(state.proof_id_mapping@ == sp);
                        assert(state.bucket_id_mapping@ == sb);
                        assert(engine.log() == old(engine).log().push(
                            (EngineEvent::CallFunction {
                                package_address: *package_address,
                                blueprint_name: blueprint_name@,
                                function: function@,
                                args: na,
                                result: res,
                            }),
                        ));
                    }
                    res
                },
            }
        },
        ValidatedInstruction::CallMethod { component_address, method, args } => {
            let rewritten = ValidatedTransaction::replace_ids(
                args,
                &mut state.proof_id_mapping,
                &mut state.bucket_id_mapping,
            );
            proof {
                assert forall|k: BucketId|
                    #[trigger] state.bucket_id_mapping@.dom().contains(k)
                    implies state.bucket_keys_ever@.contains(k) by {
                    assert(old(state).bucket_id_mapping@.dom().contains(k));
                }
                assert forall|k: ProofId| #[trigger] state.proof_id_mapping@.dom().contains(k)
                    implies state.proof_keys_ever@.contains(k) by {
                    assert(old(state).proof_id_mapping@.dom().contains(k));
                }
            }
            match rewritten {
                Err(e) => Err(e),
                Ok(new_args) => {
                    let ghost na = view_seq(new_args@);
                    let res = engine.txn_call_method(*component_address, method, new_args);
                    proof {
                        let (sr, sp, sb) = rewrite_seq_spec(
                            view_seq(args@),
                            old(state).proof_id_mapping@,
                            old(state).bucket_id_mapping@,
                        );
                        assert(sr == Ok::<Seq<crate::value::SpecValue>, RuntimeError>(na));
                        assert(state.proof_id_mapping@ == sp);
                        assert(state.bucket_id_mapping@ == sb);
                        assert(engine.log() == old(engine).log().push(
                            (EngineEvent::CallMethod {
                                component_address: *component_address,
                                method: method@,
                                args: na,
                                result: res,
                            }),
                        ));
                    }
                    res
                },
            }
        },
        ValidatedInstruction::CallMethodWithAllResources { component_address, method } => {
            engine.call_method_with_all_resources(*component_address, method)
        },
        ValidatedInstruction::PublishPackage { code } => {
            let mut copy: Vec<u8> = Vec::new();
            let mut i: usize = 0;
            while i < code.len()
                invariant
                    i <= code@.len(),
                    copy@ == code@.subrange(0, i as int),
                decreases code@.len() - i,
            {
                copy.push(code[i]);
                proof {
                    assert(copy@ =~= code@.subrange(0, i + 1));
                }
                i = i + 1;
            }
            proof {
                assert(copy@ =~= code@);
            }
            match engine.publish_package(copy) {
                Ok(addr) => Ok(ScryptoValue::Package(addr)),
                Err(e) => Err(e),
            }
        },

        // The dispatcher routes only the variants above here.
        _ => {
            proof {
                assert(false);
            }
            Err(RuntimeError::WorktopError)
        },
    }
}
/// The run state a transaction starts from: empty tables, empty key
/// logs, both id counters at one.
pub open spec fn initial_run_state(s: RunState) -> bool {
    &&& s.bucket_id_mapping@ == Map::<BucketId, BucketId>::empty()
    &&& s.proof_id_mapping@ == Map::<ProofId, ProofId>::empty()
    &&& s.id_allocator.next_bucket_id == 1
    &&& s.id_allocator.next_proof_id == 1
    &&& s.bucket_keys_ever@ == Seq::<BucketId>::empty()
    &&& s.proof_keys_ever@ == Seq::<ProofId>::empty()
}

/// What the finalizer does to the engine and to the reported error:
/// both finalizer calls are appended to the log with their recorded
/// results, a prior error always wins, and a finalizer error is
/// reported only when no prior error was recorded.
pub open spec fn finalize_post<E: Engine>(
    epre: E,
    epost: E,
    prior: Option<RuntimeError>,
    r: Option<RuntimeError>,
) -> bool {
    &&& epost.log().len() == epre.log().len() + 2
    &&& epost.log().subrange(0, epre.log().len() as int) == epre.log()
    &&& epost.log()[epre.log().len() as int] is DropAllProofs
    &&& epost.log().last() is CheckResource
    &&& prior is Some ==> r == prior
    &&& r is None ==> prior is None
    &&& r is None ==> epost.live_buckets().is_empty() && epost.live_proofs().is_empty()
        && epost.auth_zone().len() == 0
    &&& prior is None ==> (epost.log()[epre.log().len() as int] matches
        EngineEvent::DropAllProofs { result: Err(e) } ==> r == Some(e))
    &&& prior is None ==> (epost.log()[epre.log().len() as int] matches
        EngineEvent::DropAllProofs { result: Ok(_) } ==> (epost.log().last() matches
        EngineEvent::CheckResource { result: Err(e) } ==> r == Some(e)))
    &&& prior is None ==> (epost.log()[epre.log().len() as int] matches
        EngineEvent::DropAllProofs { result: Ok(_) } ==> (epost.log().last() matches
        EngineEvent::CheckResource { result: Ok(_) } ==> r is None))
    &&& epost.live_buckets() == epre.live_buckets()
}

/// The instruction loop's trace.  `states` and `engines` chain from the
/// initial run state and the engine at entry through one
/// `instruction_post` step per instruction in list order; `outputs` are
/// the emitted values of the successful steps, and `loop_error` is the
/// first failure, after which no further instruction executes.
pub open spec fn instructions_trace<E: Engine>(
    instructions: Seq<ValidatedInstruction>,
    states: Seq<RunState>,
    engines: Seq<E>,
    outputs: Seq<ScryptoValue>,
    loop_error: Option<RuntimeError>,
) -> bool {
    let k = outputs.len() as int;
    &&& states.len() == engines.len()
    &&& k <= instructions.len()
    &&& states.len() > 0
    &&& initial_run_state(states[0])
    &&& forall|i: int| 0 <= i < k ==> #[trigger] instruction_post(
        instructions[i],
        states[i],
        engines[i],
        states[i + 1],
        engines[i + 1],
        Ok::<ScryptoValue, RuntimeError>(outputs[i]),
    )
    &&& match loop_error {
        None => {
            &&& k == instructions.len()
            &&& states.len() == k + 1
        },
        Some(e) => {
            &&& k < instructions.len()
            &&& states.len() == k + 2
            &&& instruction_post(
                instructions[k],
                states[k],
                engines[k],
                states[k + 1],
                engines[k + 1],
                Err::<ScryptoValue, RuntimeError>(e),
            )
        },
    }
}

/// The whole run: the outputs, the final translation state and the
/// reported error arise from executing a prefix of the instructions,
/// step by step as `instruction_post` describes, from a fresh run state
/// against this engine, followed by the finalizer on the loop's first
/// error, if any.
pub open spec fn run_post<E: Engine>(
    instructions: Seq<ValidatedInstruction>,
    epre: E,
    epost: E,
    final_state: RunState,
    outputs: Seq<ScryptoValue>,
    error: Option<RuntimeError>,
) -> bool {
    exists|states: Seq<RunState>, engines: Seq<E>, loop_error: Option<RuntimeError>|
        {
            &&& #[trigger] instructions_trace(instructions, states, engines, outputs, loop_error)
            &&& engines[0] == epre
            &&& states.last() == final_state
            &&& finalize_post(engines.last(), epost, loop_error, error)
        }
}

/// A run seen without its final translation state.
pub open spec fn run_post_outputs<E: Engine>(
    instructions: Seq<ValidatedInstruction>,
    epre: E,
    epost: E,
    outputs: Seq<ScryptoValue>,
    error: Option<RuntimeError>,
) -> bool {
    exists|final_state: RunState| #[trigger] run_post(
        instructions,
        epre,
        epost,
        final_state,
        outputs,
        error,
    )
}

/// The finalizer: drops all remaining proofs, then audits the engine for
/// dangling resources.  Both steps always run; an error they produce is
/// reported only if no earlier error was recorded.
pub fn finalize<E: Engine>(engine: &mut E, prior: Option<RuntimeError>) -> (r: Option<
    RuntimeError,
>)
    requires
        old(engine).inv(),
    ensures
        final(engine).inv(),
        finalize_post(*old(engine), *final(engine), prior, r),
    {
    let ghost len0 = engine.log().len();
    let rd = engine.drop_all_proofs();
    let rc = engine.check_resource();
    proof {
        assert(engine.log().subrange(0, len0 as int) =~= old(engine).log());
    }
    match prior {
        Some(e) => Some(e),
        None => match rd {
            Err(e) => Some(e),
            Ok(_) => match rc {
                Err(e) => Some(e),
                Ok(_) => None,
            },
        },
    }
}

impl ValidatedTransaction {
    /// Runs the whole transaction against an engine and also returns the
    /// final run state, so the translation tables can be inspected.
    ///
    /// `run_post` ties the result to the instructions: the outputs, the
    /// final state and the error arise from executing a prefix of the
    /// instruction list step by step, as `instruction_post` describes,
    /// from a fresh run state, with the first failure halting the loop
    /// and the finalizer deciding the error only when the loop produced
    /// none.  On an error-free run: one output per instruction, the
    /// bucket table is empty, and every transaction-owned bucket and
    /// proof is gone from the engine; the proof table may still carry
    /// entries, but each refers only to a proof the finalizer already
    /// dropped (a popped proof that is never dropped leaves its entry
    /// behind).  The engine's resource audit runs exactly once, as the
    /// very last call, right after the drop of remaining proofs; no
    /// earlier call is a finalizer call.  The ghost key logs witness
    /// that no transaction-scoped id was ever bound twice.
    pub fn run_with_state<E: Engine>(&self, engine: &mut E) -> (r: (
        RunState,
        Vec<ScryptoValue>,
        Option<RuntimeError>,
    ))
        requires
            old(engine).inv(),
        ensures
            final(engine).inv(),
            run_post(self.instructions@, *old(engine), *final(engine), r.0, r.1@, r.2),
            r.1@.len() <= self.instructions@.len(),
            r.2 is None ==> r.1@.len() == self.instructions@.len(),
            r.2 is None ==> r.0.bucket_id_mapping@ == Map::<BucketId, BucketId>::empty(),
            r.2 is None ==> final(engine).live_buckets().is_empty()
                && final(engine).live_proofs().is_empty(),
            r.2 is None ==> forall|k: ProofId| #[trigger] r.0.proof_id_mapping@.dom().contains(k)
                ==> !final(engine).live_proofs().contains(r.0.proof_id_mapping@[k]),
            r.0.wf(),
            r.0.bucket_keys_ever@.no_duplicates(),
            r.0.proof_keys_ever@.no_duplicates(),
            final(engine).log().len() >= old(engine).log().len() + 2,
            final(engine).log().subrange(0, old(engine).log().len() as int)
                == old(engine).log(),
            final(engine).log().last() is CheckResource,
            final(engine).log()[final(engine).log().len() - 2] is DropAllProofs,
            forall|j: int| old(engine).log().len() <= j < final(engine).log().len() - 2
                ==> !(#[trigger] final(engine).log()[j] is CheckResource)
                    && !(final(engine).log()[j] is DropAllProofs),
    {
        let mut state = RunState::new();
        let mut outputs: Vec<ScryptoValue> = Vec::new();
        let mut error: Option<RuntimeError> = None;
        let mut i: usize = 0;
        let ghost log0 = engine.log();
        let ghost mut states: Seq<RunState> = seq![state];
        let ghost mut engines: Seq<E> = seq![*engine];
        while i < self.instructions.len() && error.is_none()
            invariant
                engine.inv(),
                state.wf(),
                i <= self.instructions@.len(),
                log0 == old(engine).log(),
                outputs@.len() == i,
                error is None ==> tables_live(state, *engine),
                engine.log().len() >= log0.len(),
                engine.log().subrange(0, log0.len() as int) == log0,
                forall|j: int| log0.len() <= j < engine.log().len()
                    ==> !(#[trigger] engine.log()[j] is CheckResource)
                        && !(engine.log()[j] is DropAllProofs),
                states.len() == engines.len(),
                error is None ==> states.len() == i + 1,
                error is Some ==> states.len() == i + 2 && i < self.instructions@.len(),
                initial_run_state(states[0]),
                engines[0] == *old(engine),
                states.last() == state,
                engines.last() == *engine,
                forall|j: int| 0 <= j < i ==> #[trigger] instruction_post(
                    self.instructions@[j],
                    states[j],
                    engines[j],
                    states[j + 1],
                    engines[j + 1],
                    Ok::<ScryptoValue, RuntimeError>(outputs@[j]),
                ),
                error matches Some(e) ==> instruction_post(
                    self.instructions@[i as int],
                    states[i as int],
                    engines[i as int],
                    states[i + 1],
                    engines[i + 1],
                    Err::<ScryptoValue, RuntimeError>(e),
                ),
            decreases self.instructions@.len() - i, (if error is None { 1int } else { 0int }),
        {
            let ghost log_before = engine.log();
            let ghost pre_state = state;
            let ghost pre_engine = *engine;
            let ghost states_before = states;
            let ghost engines_before = engines;
            let inst = &self.instructions[i];
            match execute_instruction(&mut state, engine, inst) {
                Ok(v) => {
                    outputs.push(v);
                    i = i + 1;
                },
                Err(e) => {
                    error = Some(e);
                },
            }
            proof {
                lemma_prefix_trans(log0, log_before, engine.log());
                states = states.push(state);
                engines = engines.push(*engine);
                assert forall|j: int| 0 <= j < i implies #[trigger] instruction_post(
                    self.instructions@[j],
                    states[j],
                    engines[j],
                    states[j + 1],
                    engines[j + 1],
                    Ok::<ScryptoValue, RuntimeError>(outputs@[j]),
                ) by {
                    if j < i - 1 || (error is Some && j < i) {
                        assert(instruction_post(
                            self.instructions@[j],
                            states_before[j],
                            engines_before[j],
                            states_before[j + 1],
                            engines_before[j + 1],
                            Ok::<ScryptoValue, RuntimeError>(outputs@[j]),
                        ));
                        assert(states[j] == states_before[j]);
                        assert(states[j + 1] == states_before[j + 1]);
                        assert(engines[j] == engines_before[j]);
                        assert(engines[j + 1] == engines_before[j + 1]);
                    } else {
                        assert(states[j] == pre_state);
                        assert(engines[j] == pre_engine);
                        assert(states[j + 1] == state);
                        assert(engines[j + 1] == *engine);
                    }
                }
            }
        }
        let ghost loop_end_engine = *engine;
        let ghost loop_end_state = state;
        proof {
            assert(instructions_trace(self.instructions@, states, engines, outputs@, error));
        }
        let final_error = finalize(engine, error);
        proof {
            assert(finalize_post(loop_end_engine, *engine, error, final_error));
            assert(engines.last() == loop_end_engine);
            assert(run_post(
                self.instructions@,
                *old(engine),
                *engine,
                state,
                outputs@,
                final_error,
            ));
            lemma_prefix_trans(log0, loop_end_engine.log(), engine.log());
            if final_error is None {
                assert(error is None);
                assert(tables_live(loop_end_state, loop_end_engine));
                assert(engine.live_buckets() == loop_end_engine.live_buckets());
                assert forall|k: BucketId|
                    !(#[trigger] state.bucket_id_mapping@.dom().contains(k)) by {
                    if state.bucket_id_mapping@.dom().contains(k) {
                        assert(loop_end_engine.live_buckets().contains(
                            state.bucket_id_mapping@[k],
                        ));
                        assert(engine.live_buckets().contains(state.bucket_id_mapping@[k]));
                        assert(false);
                    }
                }
                assert(state.bucket_id_mapping@ =~= Map::<BucketId, BucketId>::empty());
                assert(outputs@.len() == self.instructions@.len());
            }
            assert forall|j: int| log0.len() <= j < engine.log().len() - 2
                implies !(#[trigger] engine.log()[j] is CheckResource)
                    && !(engine.log()[j] is DropAllProofs) by {
                assert(engine.log()[j] == engine.log().subrange(
                    0,
                    loop_end_engine.log().len() as int,
                )[j]);
                assert(engine.log()[j] == loop_end_engine.log()[j]);
            }
        }
        (state, outputs, final_error)
    }

    /// Runs the transaction: executes every instruction in order, then
    /// the finalizer, and returns one output per completed instruction
    /// together with the first error, if any.  `run_post_outputs` pins
    /// the outputs and the error to a step-by-step execution of the
    /// instruction list against this engine.
    pub fn main<E: Engine>(&self, engine: &mut E) -> (r: (
        Vec<ScryptoValue>,
        Option<RuntimeError>,
    ))
        requires
            old(engine).inv(),
        ensures
            final(engine).inv(),
            run_post_outputs(self.instructions@, *old(engine), *final(engine), r.0@, r.1),
            r.0@.len() <= self.instructions@.len(),
            r.1 is None ==> r.0@.len() == self.instructions@.len(),
            r.1 is None ==> final(engine).live_buckets().is_empty()
                && final(engine).live_proofs().is_empty(),
            final(engine).log().len() >= old(engine).log().len() + 2,
            final(engine).log().subrange(0, old(engine).log().len() as int)
                == old(engine).log(),
            final(engine).log().last() is CheckResource,
            final(engine).log()[final(engine).log().len() - 2] is DropAllProofs,
            forall|j: int| old(engine).log().len() <= j < final(engine).log().len() - 2
                ==> !(#[trigger] final(engine).log()[j] is CheckResource)
                    && !(final(engine).log()[j] is DropAllProofs),
    {
        let (st, outputs, error) = self.run_with_state(engine);
        proof {
            assert(run_post(self.instructions@, *old(engine), *engine, st, outputs@, error));
        }
        let _ = st;
        (outputs, error)
    }
}

/// Being a prefix of a prefix is being a prefix.
proof fn lemma_prefix_trans(a: Seq<EngineEvent>, b: Seq<EngineEvent>, c: Seq<EngineEvent>)
    requires
        a.len() <= b.len(),
        b.len() <= c.len(),
        b.subrange(0, a.len() as int) == a,
        c.subrange(0, b.len() as int) == b,
    ensures
        c.subrange(0, a.len() as int) == a,
{
    assert forall|j: int| 0 <= j < a.len() implies c.subrange(0, a.len() as int)[j] == a[j] by {
        assert(c.subrange(0, b.len() as int)[j] == b[j]);
        assert(b.subrange(0, a.len() as int)[j] == a[j]);
    }
    assert(c.subrange(0, a.len() as int) =~= a);
}





} // verus!
