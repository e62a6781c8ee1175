use transaction_interpreter::interpreter::{ValidatedInstruction, ValidatedTransaction};
use transaction_interpreter::model_engine::ModelEngine;
use transaction_interpreter::types::{ComponentAddress, Decimal, ResourceAddress};
use transaction_interpreter::value::ScryptoValue;
use transaction_interpreter::errors::RuntimeError;

fn tx(instructions: Vec<ValidatedInstruction>) -> ValidatedTransaction {
    ValidatedTransaction { raw_hash: transaction_interpreter::types::Hash(vec![0; 32]), instructions, signers: vec![] }
}

#[test]
fn take_return_assert_round_trip() {
    let r = ResourceAddress(7);
    let mut engine = ModelEngine::new();
    engine.set_worktop_balance(r, Decimal(100));
    let t = tx(vec![
        ValidatedInstruction::TakeFromWorktopByAmount { amount: Decimal(5), resource_address: r },
        ValidatedInstruction::ReturnToWorktop { bucket_id: 1 },
        ValidatedInstruction::AssertWorktopContainsByAmount {
            amount: Decimal(5),
            resource_address: r,
        },
    ]);
    let (state, outputs, error) = t.run_with_state(&mut engine);
    assert_eq!(error, None);
    assert_eq!(
        outputs,
        vec![ScryptoValue::Bucket(1), ScryptoValue::Unit, ScryptoValue::Unit]
    );
    assert_eq!(state.bucket_table_len(), 0);
    assert_eq!(state.proof_table_len(), 0);
    assert_eq!(engine.worktop_balance(r), 100);
}

#[test]
fn double_return_fails_with_bucket_not_found() {
    let r = ResourceAddress(7);
    let mut engine = ModelEngine::new();
    engine.set_worktop_balance(r, Decimal(100));
    let t = tx(vec![
        ValidatedInstruction::TakeFromWorktopByAmount { amount: Decimal(5), resource_address: r },
        ValidatedInstruction::ReturnToWorktop { bucket_id: 1 },
        ValidatedInstruction::AssertWorktopContainsByAmount {
            amount: Decimal(5),
            resource_address: r,
        },
        ValidatedInstruction::ReturnToWorktop { bucket_id: 1 },
    ]);
    let (outputs, error) = t.main(&mut engine);
    assert_eq!(outputs.len(), 3);
    assert_eq!(error, Some(RuntimeError::BucketNotFound(1)));
}

#[test]
fn clone_and_drop_proofs() {
    let r = ResourceAddress(3);
    let mut engine = ModelEngine::new();
    let t = tx(vec![
        ValidatedInstruction::CreateProofFromAuthZone { resource_address: r },
        ValidatedInstruction::CloneProof { proof_id: 1 },
        ValidatedInstruction::DropProof { proof_id: 2 },
        ValidatedInstruction::DropProof { proof_id: 1 },
    ]);
    let (outputs, error) = t.main(&mut engine);
    assert_eq!(error, None);
    assert_eq!(
        outputs,
        vec![
            ScryptoValue::Proof(1),
            ScryptoValue::Proof(2),
            ScryptoValue::Unit,
            ScryptoValue::Unit
        ]
    );
}

#[test]
fn finalizer_drops_dangling_proof() {
    let mut engine = ModelEngine::new();
    engine.seed_auth_zone_proof();
    let t = tx(vec![ValidatedInstruction::PopFromAuthZone]);
    let (outputs, error) = t.main(&mut engine);
    assert_eq!(error, None);
    assert_eq!(outputs.len(), 1);
    assert_eq!(engine.live_proof_count(), 0);
}

#[test]
fn call_method_args_are_rewritten_and_consumed() {
    let r = ResourceAddress(9);
    let mut engine = ModelEngine::new();
    engine.set_worktop_balance(r, Decimal(50));
    let t = tx(vec![
        ValidatedInstruction::TakeFromWorktopByAmount { amount: Decimal(10), resource_address: r },
        ValidatedInstruction::CallMethod {
            component_address: ComponentAddress(1),
            method: String::from("deposit"),
            args: vec![ScryptoValue::Bucket(1)],
        },
    ]);
    let (state, outputs, error) = t.run_with_state(&mut engine);
    assert_eq!(error, None);
    assert_eq!(outputs.len(), 2);
    assert_eq!(state.bucket_table_len(), 0);
    assert_eq!(engine.live_bucket_count(), 0);
}

#[test]
fn first_error_wins_over_finalizer_error() {
    let r = ResourceAddress(7);
    let mut engine = ModelEngine::new();
    engine.set_worktop_balance(r, Decimal(100));
    let t = tx(vec![
        ValidatedInstruction::TakeFromWorktopByAmount { amount: Decimal(1), resource_address: r },
        ValidatedInstruction::ReturnToWorktop { bucket_id: 99 },
    ]);
    let (outputs, error) = t.main(&mut engine);
    assert_eq!(outputs.len(), 1);
    assert_eq!(error, Some(RuntimeError::BucketNotFound(99)));
}

#[test]
fn dangling_bucket_fails_resource_check() {
    let r = ResourceAddress(7);
    let mut engine = ModelEngine::new();
    engine.set_worktop_balance(r, Decimal(100));
    let t = tx(vec![ValidatedInstruction::TakeFromWorktopByAmount {
        amount: Decimal(1),
        resource_address: r,
    }]);
    let (outputs, error) = t.main(&mut engine);
    assert_eq!(outputs.len(), 1);
    assert_eq!(error, Some(RuntimeError::ResourceCheckFailure));
}

#[test]
fn clear_auth_zone_retires_local_proofs() {
    let r = ResourceAddress(3);
    let mut engine = ModelEngine::new();
    let t = tx(vec![
        ValidatedInstruction::CreateProofFromAuthZone { resource_address: r },
        ValidatedInstruction::ClearAuthZone,
        ValidatedInstruction::DropProof { proof_id: 1 },
    ]);
    let (outputs, error) = t.main(&mut engine);
    assert_eq!(outputs.len(), 2);
    assert_eq!(error, Some(RuntimeError::ProofNotFound(1)));
}

#[test]
fn publish_package_emits_address() {
    let mut engine = ModelEngine::new();
    let t = tx(vec![ValidatedInstruction::PublishPackage { code: vec![0, 1, 2] }]);
    let (outputs, error) = t.main(&mut engine);
    assert_eq!(error, None);
    assert_eq!(outputs.len(), 1);
    assert!(matches!(
        outputs[0],
        ScryptoValue::Package(_)
    ));
}

#[test]
fn create_proof_from_bucket_keeps_bucket_live() {
    let r = ResourceAddress(7);
    let mut engine = ModelEngine::new();
    engine.set_worktop_balance(r, Decimal(100));
    let t = tx(vec![
        ValidatedInstruction::TakeFromWorktopByAmount { amount: Decimal(5), resource_address: r },
        ValidatedInstruction::CreateProofFromBucket { bucket_id: 1 },
        ValidatedInstruction::DropProof { proof_id: 1 },
        ValidatedInstruction::ReturnToWorktop { bucket_id: 1 },
    ]);
    let (outputs, error) = t.main(&mut engine);
    assert_eq!(error, None);
    assert_eq!(outputs.len(), 4);
    assert_eq!(engine.worktop_balance(r), 100);
}
