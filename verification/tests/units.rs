use std::collections::HashMap;
use transaction_interpreter::interpreter::{
    execute_instruction, ValidatedInstruction, ValidatedTransaction,
};
use transaction_interpreter::model_engine::ModelEngine;
use transaction_interpreter::state::RunState;
use transaction_interpreter::id_allocator::IdAllocator;
use transaction_interpreter::errors::{IdAllocatorError, RuntimeError};
use transaction_interpreter::types::{
    Decimal, NonFungibleAddress, NonFungibleId, ResourceAddress, ResourceDefId,
};
use transaction_interpreter::value::ScryptoValue;
use transaction_interpreter::auth_rule::{ProofRule, ProofRuleResource, SborPath};
use transaction_interpreter::bucket_ref::{BucketRef, ParseBucketRefError};
use transaction_interpreter::scrypto_env::ModelScryptoEnv;

fn tx2(instructions: Vec<ValidatedInstruction>) -> ValidatedTransaction {
    ValidatedTransaction { raw_hash: transaction_interpreter::types::Hash(vec![0; 32]), instructions, signers: vec![] }
}

#[test]
fn allocator_issues_sequential_ids_per_space() {
    let mut a = IdAllocator::new();
    assert_eq!(a.new_bucket_id(), Ok(1));
    assert_eq!(a.new_bucket_id(), Ok(2));
    assert_eq!(a.new_proof_id(), Ok(1));
    assert_eq!(a.new_proof_id(), Ok(2));
    assert_eq!(a.new_bucket_id(), Ok(3));
}

#[test]
fn allocator_fails_past_the_limit() {
    let mut a = IdAllocator { next_bucket_id: u32::MAX, next_proof_id: u32::MAX };
    assert_eq!(a.new_bucket_id(), Err(IdAllocatorError::OutOfId));
    assert_eq!(a.new_proof_id(), Err(IdAllocatorError::OutOfId));
    assert_eq!(a.next_bucket_id, u32::MAX);
}

#[test]
fn replace_ids_rewrites_nested_values_and_consumes() {
    let mut p: HashMap<u32, u32> = HashMap::new();
    let mut b: HashMap<u32, u32> = HashMap::new();
    b.insert(1, 10);
    p.insert(2, 20);
    let vals = vec![ScryptoValue::Tuple(vec![
        ScryptoValue::Bucket(1),
        ScryptoValue::List(vec![ScryptoValue::Proof(2)]),
        ScryptoValue::U64(9),
    ])];
    let out = ValidatedTransaction::replace_ids(&vals, &mut p, &mut b).unwrap();
    assert_eq!(
        out,
        vec![ScryptoValue::Tuple(vec![
            ScryptoValue::Bucket(10),
            ScryptoValue::List(vec![ScryptoValue::Proof(20)]),
            ScryptoValue::U64(9),
        ])]
    );
    assert!(b.is_empty());
    assert!(p.is_empty());
    let again = ValidatedTransaction::replace_ids(&vals, &mut p, &mut b);
    assert_eq!(again, Err(RuntimeError::BucketNotFound(1)));
}

#[test]
fn replace_ids_reports_missing_proof() {
    let mut p: HashMap<u32, u32> = HashMap::new();
    let mut b: HashMap<u32, u32> = HashMap::new();
    let vals = vec![ScryptoValue::Proof(5)];
    let out = ValidatedTransaction::replace_ids(&vals, &mut p, &mut b);
    assert_eq!(out, Err(RuntimeError::ProofNotFound(5)));
}

#[test]
fn pop_then_push_restores_auth_zone_top() {
    let mut engine = ModelEngine::new();
    engine.seed_auth_zone_proof();
    let mut state = RunState::new();
    assert_eq!(engine.auth_zone_depth(), 1);
    let popped = execute_instruction(&mut state, &mut engine, &ValidatedInstruction::PopFromAuthZone);
    assert_eq!(popped, Ok(ScryptoValue::Proof(1)));
    assert_eq!(engine.auth_zone_depth(), 0);
    let pushed = execute_instruction(
        &mut state,
        &mut engine,
        &ValidatedInstruction::PushToAuthZone { proof_id: 1 },
    );
    assert_eq!(pushed, Ok(ScryptoValue::Unit));
    assert_eq!(engine.auth_zone_depth(), 1);
    assert_eq!(state.proof_table_len(), 0);
}

#[test]
fn pop_from_empty_auth_zone_fails() {
    let mut engine = ModelEngine::new();
    let t = tx2(vec![ValidatedInstruction::PopFromAuthZone]);
    let (outputs, error) = t.main(&mut engine);
    assert_eq!(outputs.len(), 0);
    assert_eq!(error, Some(RuntimeError::AuthZoneIsEmpty));
}

#[test]
fn unknown_proof_ids_are_rejected() {
    let mut engine = ModelEngine::new();
    let t = tx2(vec![ValidatedInstruction::PushToAuthZone { proof_id: 5 }]);
    let (_, error) = t.main(&mut engine);
    assert_eq!(error, Some(RuntimeError::ProofNotFound(5)));

    let mut engine2 = ModelEngine::new();
    let t2 = tx2(vec![ValidatedInstruction::CloneProof { proof_id: 4 }]);
    let (_, error2) = t2.main(&mut engine2);
    assert_eq!(error2, Some(RuntimeError::ProofNotFound(4)));

    let mut engine3 = ModelEngine::new();
    let t3 = tx2(vec![ValidatedInstruction::DropProof { proof_id: 3 }]);
    let (_, error3) = t3.main(&mut engine3);
    assert_eq!(error3, Some(RuntimeError::ProofNotFound(3)));
}

#[test]
fn unknown_bucket_ids_are_rejected() {
    let mut engine = ModelEngine::new();
    let t = tx2(vec![ValidatedInstruction::CreateProofFromBucket { bucket_id: 8 }]);
    let (_, error) = t.main(&mut engine);
    assert_eq!(error, Some(RuntimeError::BucketNotFound(8)));

    let mut engine2 = ModelEngine::new();
    let t2 = tx2(vec![ValidatedInstruction::CallFunction {
        package_address: transaction_interpreter::types::PackageAddress(1),
        blueprint_name: String::from("bp"),
        function: String::from("f"),
        args: vec![ScryptoValue::Bucket(2)],
    }]);
    let (_, error2) = t2.main(&mut engine2);
    assert_eq!(error2, Some(RuntimeError::BucketNotFound(2)));
}

#[test]
fn worktop_take_and_asserts_check_balances() {
    let r = ResourceAddress(1);
    let mut engine = ModelEngine::new();
    engine.set_worktop_balance(r, Decimal(4));
    let t = tx2(vec![ValidatedInstruction::TakeFromWorktopByAmount {
        amount: Decimal(5),
        resource_address: r,
    }]);
    let (_, error) = t.main(&mut engine);
    assert_eq!(error, Some(RuntimeError::WorktopError));

    let mut engine2 = ModelEngine::new();
    let t2 = tx2(vec![ValidatedInstruction::AssertWorktopContains { resource_address: r }]);
    let (_, error2) = t2.main(&mut engine2);
    assert_eq!(error2, Some(RuntimeError::WorktopError));

    let mut engine3 = ModelEngine::new();
    engine3.set_worktop_balance(r, Decimal(6));
    let t3 = tx2(vec![
        ValidatedInstruction::TakeFromWorktop { resource_address: r },
        ValidatedInstruction::ReturnToWorktop { bucket_id: 1 },
        ValidatedInstruction::AssertWorktopContainsByAmount {
            amount: Decimal(6),
            resource_address: r,
        },
    ]);
    let (outputs3, error3) = t3.main(&mut engine3);
    assert_eq!(error3, None);
    assert_eq!(outputs3.len(), 3);
}

#[test]
fn non_fungible_operations_report_worktop_failure() {
    let r = ResourceAddress(1);
    let mut engine = ModelEngine::new();
    let t = tx2(vec![ValidatedInstruction::TakeFromWorktopByIds {
        ids: vec![NonFungibleId(1)],
        resource_address: r,
    }]);
    let (outputs, error) = t.main(&mut engine);
    assert_eq!(outputs.len(), 0);
    assert_eq!(error, Some(RuntimeError::WorktopError));
}

#[test]
fn bucket_ref_wire_form_round_trips() {
    let b = BucketRef(0xDEAD_BEEF);
    let v = b.to_vec();
    assert_eq!(v.len(), 4);
    assert_eq!(BucketRef::try_from(v.as_slice()), Ok(b));
    assert_eq!(
        BucketRef::try_from(&[1u8, 2, 3][..]),
        Err(ParseBucketRefError::InvalidLength(3))
    );
}

#[test]
fn sbor_path_walks_index_by_index() {
    let path = SborPath(vec![4, 9]);
    let rel = path.rel_path();
    assert!(!rel.is_empty());
    let (first, rest) = rel.pop();
    assert_eq!(first, 4);
    let (second, rest2) = rest.pop();
    assert_eq!(second, 9);
    assert!(rest2.is_empty());
}

#[test]
fn proof_rules_build_from_resources() {
    assert_eq!(
        ProofRuleResource::from(ResourceDefId(4)),
        ProofRuleResource::Resource(ResourceDefId(4))
    );
    assert_eq!(
        ProofRule::from(NonFungibleAddress(1, 2)),
        ProofRule::This(ProofRuleResource::NonFungible(NonFungibleAddress(1, 2)))
    );
    assert_eq!(
        ProofRuleResource::from(SborPath(vec![1])),
        ProofRuleResource::FromComponent(SborPath(vec![1]))
    );
}

#[test]
fn call_method_with_all_resources_drains_worktop() {
    let r = ResourceAddress(2);
    let mut engine = ModelEngine::new();
    engine.set_worktop_balance(r, Decimal(30));
    let t = tx2(vec![ValidatedInstruction::CallMethodWithAllResources {
        component_address: transaction_interpreter::types::ComponentAddress(5),
        method: String::from("sweep"),
    }]);
    let (outputs, error) = t.main(&mut engine);
    assert_eq!(error, None);
    assert_eq!(outputs.len(), 1);
    assert_eq!(engine.worktop_balance(r), 0);
}

#[test]
fn auth_zone_proofs_by_amount_and_by_ids() {
    let r = ResourceAddress(2);
    let mut engine = ModelEngine::new();
    let t = tx2(vec![
        ValidatedInstruction::CreateProofFromAuthZoneByAmount {
            amount: Decimal(1),
            resource_address: r,
        },
        ValidatedInstruction::DropProof { proof_id: 1 },
        ValidatedInstruction::CreateProofFromAuthZoneByIds {
            ids: vec![NonFungibleId(4)],
            resource_address: r,
        },
        ValidatedInstruction::DropProof { proof_id: 2 },
    ]);
    let (outputs, error) = t.main(&mut engine);
    assert_eq!(error, None);
    assert_eq!(outputs.len(), 4);
    assert_eq!(outputs[2], ScryptoValue::Proof(2));
}

#[test]
fn hash_from_bytes_checks_length() {
    assert!(transaction_interpreter::types::Hash::from_bytes(vec![0; 32]).is_some());
    assert!(transaction_interpreter::types::Hash::from_bytes(vec![0; 31]).is_none());
}

#[test]
fn assert_by_ids_succeeds_only_on_contained_ids() {
    let r = ResourceAddress(2);
    let mut engine = ModelEngine::new();
    let t = tx2(vec![ValidatedInstruction::AssertWorktopContainsByIds {
        ids: vec![],
        resource_address: r,
    }]);
    let (outputs, error) = t.main(&mut engine);
    assert_eq!(outputs.len(), 1);
    assert_eq!(error, None);
}

#[test]
fn assert_by_ids_reports_worktop_failure() {
    let r = ResourceAddress(2);
    let mut engine = ModelEngine::new();
    let t = tx2(vec![ValidatedInstruction::AssertWorktopContainsByIds {
        ids: vec![NonFungibleId(4)],
        resource_address: r,
    }]);
    let (outputs, error) = t.main(&mut engine);
    assert_eq!(outputs.len(), 0);
    assert_eq!(error, Some(RuntimeError::WorktopError));
}

#[test]
fn bucket_ref_reads_the_referenced_bucket() {
    let mut env = ModelScryptoEnv::new();
    env.register_ref(7, ResourceDefId(3), Decimal(12), vec![NonFungibleId(90)]);
    let r = BucketRef(7);
    assert_eq!(r.amount(&env), Decimal(12));
    assert_eq!(r.resource_def(&env), ResourceDefId(3));
    assert!(r.contains(&env, ResourceDefId(3)));
    assert!(!r.contains(&env, ResourceDefId(4)));
    assert!(r.check(&env, ResourceDefId(3)));
    assert!(!r.is_empty(&env));
    assert_eq!(r.get_non_fungible_keys(&env), vec![NonFungibleId(90)]);
    assert_eq!(r.get_non_fungible_key(&env), NonFungibleId(90));
    r.drop(&mut env);
}

#[test]
fn empty_bucket_ref_is_empty() {
    let mut env = ModelScryptoEnv::new();
    env.register_ref(1, ResourceDefId(3), Decimal(0), vec![]);
    let r = BucketRef(1);
    assert!(r.is_empty(&env));
    assert!(!r.contains(&env, ResourceDefId(3)));
}
