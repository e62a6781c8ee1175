//! The engine contract: the operations the interpreter consumes.
//!
//! The engine owns the worktop, the auth zone, and every bucket and
//! proof.  Its abstract state is a call log, the set of engine-scoped
//! bucket ids and proof ids currently owned by the transaction, the auth
//! zone as a stack of engine-scoped proof ids, and the worktop as a map
//! from resource key to available amount.  Every operation appends one
//! entry to the log recording its arguments and its result; what else is
//! promised of an operation holds of every outcome, since any operation
//! may fail.

use vstd::prelude::*;
use crate::types::{
    BucketId, ProofId, ResourceAddress, PackageAddress, ComponentAddress, NonFungibleId, Decimal,
};
use crate::errors::RuntimeError;
use crate::value::{ScryptoValue, SpecValue, bucket_ids_of_seq, proof_ids_of_seq};

verus! {

/// One engine call with its arguments and result, as recorded in the
/// engine's call log.
pub enum EngineEvent {
    TakeAllFromWorktop { resource_address: ResourceAddress, result: Result<BucketId, RuntimeError> },
    TakeFromWorktop {
        amount: Decimal,
        resource_address: ResourceAddress,
        result: Result<BucketId, RuntimeError>,
    },
    TakeNonFungiblesFromWorktop {
        ids: Seq<NonFungibleId>,
        resource_address: ResourceAddress,
        result: Result<BucketId, RuntimeError>,
    },
    ReturnToWorktop { bucket_id: BucketId, result: Result<(), RuntimeError> },
    AssertWorktopContains { resource_address: ResourceAddress, result: Result<(), RuntimeError> },
    AssertWorktopContainsByAmount {
        amount: Decimal,
        resource_address: ResourceAddress,
        result: Result<(), RuntimeError>,
    },
    AssertWorktopContainsByIds {
        ids: Seq<NonFungibleId>,
        resource_address: ResourceAddress,
        result: Result<(), RuntimeError>,
    },
    PopFromAuthZone { result: Result<ProofId, RuntimeError> },
    PushToAuthZone { proof_id: ProofId, result: Result<(), RuntimeError> },
    DropAllAuthZoneProofs { result: Result<(), RuntimeError> },
    CreateAuthZoneProof {
        resource_address: ResourceAddress,
        result: Result<ProofId, RuntimeError>,
    },
    CreateAuthZoneProofByAmount {
        amount: Decimal,
        resource_address: ResourceAddress,
        result: Result<ProofId, RuntimeError>,
    },
    CreateAuthZoneProofByIds {
        ids: Seq<NonFungibleId>,
        resource_address: ResourceAddress,
        result: Result<ProofId, RuntimeError>,
    },
    CreateBucketProof { bucket_id: BucketId, result: Result<ProofId, RuntimeError> },
    CloneProof { proof_id: ProofId, result: Result<ProofId, RuntimeError> },
    DropProof { proof_id: ProofId, result: Result<(), RuntimeError> },
    CallFunction {
        package_address: PackageAddress,
        blueprint_name: Seq<char>,
        function: Seq<char>,
        args: Seq<SpecValue>,
        result: Result<ScryptoValue, RuntimeError>,
    },
    CallMethod {
        component_address: ComponentAddress,
        method: Seq<char>,
        args: Seq<SpecValue>,
        result: Result<ScryptoValue, RuntimeError>,
    },
    CallMethodWithAllResources {
        component_address: ComponentAddress,
        method: Seq<char>,
        result: Result<ScryptoValue, RuntimeError>,
    },
    PublishPackage { code: Seq<u8>, result: Result<PackageAddress, RuntimeError> },
    DropAllProofs { result: Result<(), RuntimeError> },
    CheckResource { result: Result<(), RuntimeError> },
}

/// The amount of a resource on a worktop, zero when absent.
pub open spec fn worktop_amount(w: Map<u64, int>, res: u64) -> int {
    if w.dom().contains(res) {
        w[res]
    } else {
        0
    }
}

/// The component execution engine, as the interpreter sees it.
pub trait Engine: Sized {
    /// Engine-side validity; established by construction and preserved
    /// by every operation.
    spec fn inv(&self) -> bool;

    /// Every call made on the engine so far, in order.
    spec fn log(&self) -> Seq<EngineEvent>;

    /// Engine-scoped ids of buckets currently owned by the transaction.
    spec fn live_buckets(&self) -> Set<BucketId>;

    /// Engine-scoped ids of proofs currently owned by the transaction
    /// and not sitting on the auth zone.
    spec fn live_proofs(&self) -> Set<ProofId>;

    /// The auth zone as a stack, bottom first.
    spec fn auth_zone(&self) -> Seq<ProofId>;

    /// Available amount per resource key on the worktop.
    spec fn worktop(&self) -> Map<u64, int>;

    /// The resource key a transaction-owned bucket holds.
    spec fn bucket_resource(&self, id: BucketId) -> u64;

    /// The amount a transaction-owned bucket holds.
    spec fn bucket_amount(&self, id: BucketId) -> int;

    /// The non-fungible ids of one resource available on the worktop.
    spec fn worktop_ids(&self, res: u64) -> Set<NonFungibleId>;

    /// The non-fungible ids a transaction-owned bucket holds.
    spec fn bucket_nf_ids(&self, id: BucketId) -> Set<NonFungibleId>;

    fn take_all_from_worktop(&mut self, resource_address: ResourceAddress) -> (r: Result<
        BucketId,
        RuntimeError,
    >)
        requires
            old(self).inv(),
        ensures
            final(self).inv(),
            final(self).log() == old(self).log().push(
                (EngineEvent::TakeAllFromWorktop { resource_address, result: r }),
            ),
            final(self).live_proofs() == old(self).live_proofs(),
            final(self).auth_zone() == old(self).auth_zone(),
            match r {
                Ok(id) => {
                    &&& !old(self).live_buckets().contains(id)
                    &&& final(self).live_buckets() == old(self).live_buckets().insert(id)
                    &&& final(self).worktop() == old(self).worktop().insert(
                        resource_address.0,
                        0,
                    )
                    &&& final(self).bucket_resource(id) == resource_address.0
                    &&& final(self).bucket_amount(id) == worktop_amount(
                        old(self).worktop(),
                        resource_address.0,
                    )
                    &&& final(self).worktop_ids(resource_address.0)
                        == Set::<NonFungibleId>::empty()
                    &&& final(self).bucket_nf_ids(id) == old(self).worktop_ids(
                        resource_address.0,
                    )
                },
                Err(_) => {
                    &&& final(self).live_buckets() == old(self).live_buckets()
                    &&& final(self).worktop() == old(self).worktop()
                },
            },
    ;

    fn take_from_worktop(&mut self, amount: Decimal, resource_address: ResourceAddress) -> (r:
        Result<BucketId, RuntimeError>)
        requires
            old(self).inv(),
        ensures
            final(self).inv(),
            final(self).log() == old(self).log().push(
                (EngineEvent::TakeFromWorktop { amount, resource_address, result: r }),
            ),
            final(self).live_proofs() == old(self).live_proofs(),
            final(self).auth_zone() == old(self).auth_zone(),
            match r {
                Ok(id) => {
                    &&& !old(self).live_buckets().contains(id)
                    &&& final(self).live_buckets() == old(self).live_buckets().insert(id)
                    &&& 0 <= amount.0 <= worktop_amount(old(self).worktop(), resource_address.0)
                    &&& old(self).worktop().dom().contains(resource_address.0)
                    &&& final(self).worktop() == old(self).worktop().insert(
                        resource_address.0,
                        worktop_amount(old(self).worktop(), resource_address.0) - amount.0,
                    )
                    &&& final(self).bucket_resource(id) == resource_address.0
                    &&& final(self).bucket_amount(id) == amount.0
                    &&& final(self).worktop_ids(resource_address.0) == old(self).worktop_ids(
                        resource_address.0,
                    )
                },
                Err(_) => {
                    &&& final(self).live_buckets() == old(self).live_buckets()
                    &&& final(self).worktop() == old(self).worktop()
                },
            },
    ;

    fn take_non_fungibles_from_worktop(
        &mut self,
        ids: &Vec<NonFungibleId>,
        resource_address: ResourceAddress,
    ) -> (r: Result<BucketId, RuntimeError>)
        requires
            old(self).inv(),
        ensures
            final(self).inv(),
            final(self).log() == old(self).log().push(
                (EngineEvent::TakeNonFungiblesFromWorktop {
                    ids: ids@,
                    resource_address,
                    result: r,
                }),
            ),
            final(self).live_proofs() == old(self).live_proofs(),
            final(self).auth_zone() == old(self).auth_zone(),
            match r {
                Ok(id) => {
                    &&& !old(self).live_buckets().contains(id)
                    &&& final(self).live_buckets() == old(self).live_buckets().insert(id)
                    &&& ids@.to_set().subset_of(old(self).worktop_ids(resource_address.0))
                    &&& final(self).worktop_ids(resource_address.0) == old(self).worktop_ids(
                        resource_address.0,
                    ).difference(ids@.to_set())
                    &&& final(self).bucket_nf_ids(id) == ids@.to_set()
                    &&& final(self).bucket_resource(id) == resource_address.0
                },
                Err(_) => {
                    &&& final(self).live_buckets() == old(self).live_buckets()
                    &&& final(self).worktop() == old(self).worktop()
                    &&& final(self).worktop_ids(resource_address.0) == old(self).worktop_ids(
                        resource_address.0,
                    )
                },
            },
    ;

    fn return_to_worktop(&mut self, bucket_id: BucketId) -> (r: Result<(), RuntimeError>)
        requires
            old(self).inv(),
        ensures
            final(self).inv(),
            final(self).log() == old(self).log().push(
                (EngineEvent::ReturnToWorktop { bucket_id, result: r }),
            ),
            final(self).live_proofs() == old(self).live_proofs(),
            final(self).auth_zone() == old(self).auth_zone(),
            match r {
                Ok(_) => {
                    &&& old(self).live_buckets().contains(bucket_id)
                    &&& final(self).live_buckets() == old(self).live_buckets().remove(bucket_id)
                    &&& final(self).worktop() == old(self).worktop().insert(
                        old(self).bucket_resource(bucket_id),
                        worktop_amount(old(self).worktop(), old(self).bucket_resource(bucket_id))
                            + old(self).bucket_amount(bucket_id),
                    )
                    &&& final(self).worktop_ids(old(self).bucket_resource(bucket_id))
                        == old(self).worktop_ids(old(self).bucket_resource(bucket_id)).union(
                        old(self).bucket_nf_ids(bucket_id),
                    )
                },
                Err(_) => {
                    &&& final(self).live_buckets() == old(self).live_buckets()
                    &&& final(self).worktop() == old(self).worktop()
                },
            },
    ;

    fn assert_worktop_contains(&mut self, resource_address: ResourceAddress) -> (r: Result<
        (),
        RuntimeError,
    >)
        requires
            old(self).inv(),
        ensures
            final(self).inv(),
            final(self).log() == old(self).log().push(
                (EngineEvent::AssertWorktopContains { resource_address, result: r }),
            ),
            final(self).live_buckets() == old(self).live_buckets(),
            final(self).live_proofs() == old(self).live_proofs(),
            final(self).auth_zone() == old(self).auth_zone(),
            final(self).worktop() == old(self).worktop(),
            r is Ok <==> worktop_amount(old(self).worktop(), resource_address.0) > 0,
    ;

    fn assert_worktop_contains_by_amount(
        &mut self,
        amount: Decimal,
        resource_address: ResourceAddress,
    ) -> (r: Result<(), RuntimeError>)
        requires
            old(self).inv(),
        ensures
            final(self).inv(),
            final(self).log() == old(self).log().push(
                (EngineEvent::AssertWorktopContainsByAmount { amount, resource_address, result: r }),
            ),
            final(self).live_buckets() == old(self).live_buckets(),
            final(self).live_proofs() == old(self).live_proofs(),
            final(self).auth_zone() == old(self).auth_zone(),
            final(self).worktop() == old(self).worktop(),
            r is Ok <==> worktop_amount(old(self).worktop(), resource_address.0) >= amount.0,
    ;

    fn assert_worktop_contains_by_ids(
        &mut self,
        ids: &Vec<NonFungibleId>,
        resource_address: ResourceAddress,
    ) -> (r: Result<(), RuntimeError>)
        requires
            old(self).inv(),
        ensures
            final(self).inv(),
            final(self).log() == old(self).log().push(
                (EngineEvent::AssertWorktopContainsByIds { ids: ids@, resource_address, result: r }),
            ),
            final(self).live_buckets() == old(self).live_buckets(),
            final(self).live_proofs() == old(self).live_proofs(),
            final(self).auth_zone() == old(self).auth_zone(),
            final(self).worktop() == old(self).worktop(),
            r is Ok <==> ids@.to_set().subset_of(old(self).worktop_ids(resource_address.0)),
    ;

    fn pop_from_auth_zone(&mut self) -> (r: Result<ProofId, RuntimeError>)
        requires
            old(self).inv(),
        ensures
            final(self).inv(),
            final(self).log() == old(self).log().push(
                (EngineEvent::PopFromAuthZone { result: r }),
            ),
            final(self).live_buckets() == old(self).live_buckets(),
            final(self).worktop() == old(self).worktop(),
            match r {
                Ok(id) => {
                    &&& old(self).auth_zone().len() > 0
                    &&& id == old(self).auth_zone().last()
                    &&& final(self).auth_zone() == old(self).auth_zone().drop_last()
                    &&& !old(self).live_proofs().contains(id)
                    &&& final(self).live_proofs() == old(self).live_proofs().insert(id)
                },
                Err(_) => {
                    &&& final(self).auth_zone() == old(self).auth_zone()
                    &&& final(self).live_proofs() == old(self).live_proofs()
                },
            },
    ;

    fn push_to_auth_zone(&mut self, proof_id: ProofId) -> (r: Result<(), RuntimeError>)
        requires
            old(self).inv(),
        ensures
            final(self).inv(),
            final(self).log() == old(self).log().push(
                (EngineEvent::PushToAuthZone { proof_id, result: r }),
            ),
            final(self).live_buckets() == old(self).live_buckets(),
            final(self).worktop() == old(self).worktop(),
            match r {
                Ok(_) => {
                    &&& old(self).live_proofs().contains(proof_id)
                    &&& final(self).live_proofs() == old(self).live_proofs().remove(proof_id)
                    &&& final(self).auth_zone() == old(self).auth_zone().push(proof_id)
                },
                Err(_) => {
                    &&& final(self).auth_zone() == old(self).auth_zone()
                    &&& final(self).live_proofs() == old(self).live_proofs()
                },
            },
    ;

    fn drop_all_auth_zone_proofs(&mut self) -> (r: Result<(), RuntimeError>)
        requires
            old(self).inv(),
        ensures
            final(self).inv(),
            final(self).log() == old(self).log().push(
                (EngineEvent::DropAllAuthZoneProofs { result: r }),
            ),
            final(self).live_buckets() == old(self).live_buckets(),
            final(self).live_proofs() == old(self).live_proofs(),
            final(self).worktop() == old(self).worktop(),
            match r {
                Ok(_) => final(self).auth_zone() == Seq::<ProofId>::empty(),
                Err(_) => final(self).auth_zone() == old(self).auth_zone(),
            },
    ;

    fn create_auth_zone_proof(&mut self, resource_address: ResourceAddress) -> (r: Result<
        ProofId,
        RuntimeError,
    >)
        requires
            old(self).inv(),
        ensures
            final(self).inv(),
            final(self).log() == old(self).log().push(
                (EngineEvent::CreateAuthZoneProof { resource_address, result: r }),
            ),
            final(self).live_buckets() == old(self).live_buckets(),
            final(self).auth_zone() == old(self).auth_zone(),
            final(self).worktop() == old(self).worktop(),
            match r {
                Ok(id) => {
                    &&& !old(self).live_proofs().contains(id)
                    &&& final(self).live_proofs() == old(self).live_proofs().insert(id)
                },
                Err(_) => final(self).live_proofs() == old(self).live_proofs(),
            },
    ;

    fn create_auth_zone_proof_by_amount(
        &mut self,
        amount: Decimal,
        resource_address: ResourceAddress,
    ) -> (r: Result<ProofId, RuntimeError>)
        requires
            old(self).inv(),
        ensures
            final(self).inv(),
            final(self).log() == old(self).log().push(
                (EngineEvent::CreateAuthZoneProofByAmount { amount, resource_address, result: r }),
            ),
            final(self).live_buckets() == old(self).live_buckets(),
            final(self).auth_zone() == old(self).auth_zone(),
            final(self).worktop() == old(self).worktop(),
            match r {
                Ok(id) => {
                    &&& !old(self).live_proofs().contains(id)
                    &&& final(self).live_proofs() == old(self).live_proofs().insert(id)
                },
                Err(_) => final(self).live_proofs() == old(self).live_proofs(),
            },
    ;

    fn create_auth_zone_proof_by_ids(
        &mut self,
        ids: &Vec<NonFungibleId>,
        resource_address: ResourceAddress,
    ) -> (r: Result<ProofId, RuntimeError>)
        requires
            old(self).inv(),
        ensures
            final(self).inv(),
            final(self).log() == old(self).log().push(
                (EngineEvent::CreateAuthZoneProofByIds { ids: ids@, resource_address, result: r }),
            ),
            final(self).live_buckets() == old(self).live_buckets(),
            final(self).auth_zone() == old(self).auth_zone(),
            final(self).worktop() == old(self).worktop(),
            match r {
                Ok(id) => {
                    &&& !old(self).live_proofs().contains(id)
                    &&& final(self).live_proofs() == old(self).live_proofs().insert(id)
                },
                Err(_) => final(self).live_proofs() == old(self).live_proofs(),
            },
    ;

    fn txn_create_bucket_proof(&mut self, bucket_id: BucketId) -> (r: Result<ProofId, RuntimeError>)
        requires
            old(self).inv(),
        ensures
            final(self).inv(),
            final(self).log() == old(self).log().push(
                (EngineEvent::CreateBucketProof { bucket_id, result: r }),
            ),
            final(self).live_buckets() == old(self).live_buckets(),
            final(self).auth_zone() == old(self).auth_zone(),
            final(self).worktop() == old(self).worktop(),
            match r {
                Ok(id) => {
                    &&& old(self).live_buckets().contains(bucket_id)
                    &&& !old(self).live_proofs().contains(id)
                    &&& final(self).live_proofs() == old(self).live_proofs().insert(id)
                },
                Err(_) => final(self).live_proofs() == old(self).live_proofs(),
            },
    ;

    fn clone_proof(&mut self, proof_id: ProofId) -> (r: Result<ProofId, RuntimeError>)
        requires
            old(self).inv(),
        ensures
            final(self).inv(),
            final(self).log() == old(self).log().push(
                (EngineEvent::CloneProof { proof_id, result: r }),
            ),
            final(self).live_buckets() == old(self).live_buckets(),
            final(self).auth_zone() == old(self).auth_zone(),
            final(self).worktop() == old(self).worktop(),
            match r {
                Ok(id) => {
                    &&& old(self).live_proofs().contains(proof_id)
                    &&& !old(self).live_proofs().contains(id)
                    &&& final(self).live_proofs() == old(self).live_proofs().insert(id)
                },
                Err(_) => final(self).live_proofs() == old(self).live_proofs(),
            },
    ;

    fn drop_proof(&mut self, proof_id: ProofId) -> (r: Result<(), RuntimeError>)
        requires
            old(self).inv(),
        ensures
            final(self).inv(),
            final(self).log() == old(self).log().push(
                (EngineEvent::DropProof { proof_id, result: r }),
            ),
            final(self).live_buckets() == old(self).live_buckets(),
            final(self).auth_zone() == old(self).auth_zone(),
            final(self).worktop() == old(self).worktop(),
            match r {
                Ok(_) => {
                    &&& old(self).live_proofs().contains(proof_id)
                    &&& final(self).live_proofs() == old(self).live_proofs().remove(proof_id)
                },
                Err(_) => final(self).live_proofs() == old(self).live_proofs(),
            },
    ;

    fn txn_call_function(
        &mut self,
        package_address: PackageAddress,
        blueprint_name: &String,
        function: &String,
        args: Vec<ScryptoValue>,
    ) -> (r: Result<ScryptoValue, RuntimeError>)
        requires
            old(self).inv(),
        ensures
            final(self).inv(),
            final(self).log() == old(self).log().push(
                (EngineEvent::CallFunction {
                    package_address,
                    blueprint_name: blueprint_name@,
                    function: function@,
                    args: crate::value::view_seq(args@),
                    result: r,
                }),
            ),
            final(self).auth_zone() == old(self).auth_zone(),
            r matches Ok(_) ==> {
                &&& forall|id: BucketId| final(self).live_buckets().contains(id)
                    <==> old(self).live_buckets().contains(id)
                        && !bucket_ids_of_seq(crate::value::view_seq(args@)).contains(id)
                &&& forall|id: ProofId| final(self).live_proofs().contains(id)
                    <==> old(self).live_proofs().contains(id)
                        && !proof_ids_of_seq(crate::value::view_seq(args@)).contains(id)
            },
    ;

    fn txn_call_method(
        &mut self,
        component_address: ComponentAddress,
        method: &String,
        args: Vec<ScryptoValue>,
    ) -> (r: Result<ScryptoValue, RuntimeError>)
        requires
            old(self).inv(),
        ensures
            final(self).inv(),
            final(self).log() == old(self).log().push(
                (EngineEvent::CallMethod {
                    component_address,
                    method: method@,
                    args: crate::value::view_seq(args@),
                    result: r,
                }),
            ),
            final(self).auth_zone() == old(self).auth_zone(),
            r matches Ok(_) ==> {
                &&& forall|id: BucketId| final(self).live_buckets().contains(id)
                    <==> old(self).live_buckets().contains(id)
                        && !bucket_ids_of_seq(crate::value::view_seq(args@)).contains(id)
                &&& forall|id: ProofId| final(self).live_proofs().contains(id)
                    <==> old(self).live_proofs().contains(id)
                        && !proof_ids_of_seq(crate::value::view_seq(args@)).contains(id)
            },
    ;

    fn call_method_with_all_resources(
        &mut self,
        component_address: ComponentAddress,
        method: &String,
    ) -> (r: Result<ScryptoValue, RuntimeError>)
        requires
            old(self).inv(),
        ensures
            final(self).inv(),
            final(self).log() == old(self).log().push(
                (EngineEvent::CallMethodWithAllResources {
                    component_address,
                    method: method@,
                    result: r,
                }),
            ),
            final(self).auth_zone() == old(self).auth_zone(),
            r matches Ok(_) ==> {
                &&& final(self).live_buckets() == old(self).live_buckets()
                &&& final(self).live_proofs() == old(self).live_proofs()
            },
    ;

    fn publish_package(&mut self, code: Vec<u8>) -> (r: Result<PackageAddress, RuntimeError>)
        requires
            old(self).inv(),
        ensures
            final(self).inv(),
            final(self).log() == old(self).log().push(
                (EngineEvent::PublishPackage { code: code@, result: r }),
            ),
            final(self).live_buckets() == old(self).live_buckets(),
            final(self).live_proofs() == old(self).live_proofs(),
            final(self).auth_zone() == old(self).auth_zone(),
            final(self).worktop() == old(self).worktop(),
    ;

    fn drop_all_proofs(&mut self) -> (r: Result<(), RuntimeError>)
        requires
            old(self).inv(),
        ensures
            final(self).inv(),
            final(self).log() == old(self).log().push(
                (EngineEvent::DropAllProofs { result: r }),
            ),
            final(self).live_buckets() == old(self).live_buckets(),
            final(self).worktop() == old(self).worktop(),
            match r {
                Ok(_) => {
                    &&& final(self).live_proofs() == Set::<ProofId>::empty()
                    &&& final(self).auth_zone() == Seq::<ProofId>::empty()
                },
                Err(_) => {
                    &&& final(self).live_proofs() == old(self).live_proofs()
                    &&& final(self).auth_zone() == old(self).auth_zone()
                },
            },
    ;

    fn check_resource(&mut self) -> (r: Result<(), RuntimeError>)
        requires
            old(self).inv(),
        ensures
            final(self).inv(),
            final(self).log() == old(self).log().push(
                (EngineEvent::CheckResource { result: r }),
            ),
            final(self).live_buckets() == old(self).live_buckets(),
            final(self).live_proofs() == old(self).live_proofs(),
            final(self).auth_zone() == old(self).auth_zone(),
            final(self).worktop() == old(self).worktop(),
            r is Ok ==> old(self).live_buckets().is_empty() && old(self).live_proofs().is_empty(),
    ;
}

} // verus!
