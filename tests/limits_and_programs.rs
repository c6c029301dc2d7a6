use sui_adapter::encoding::MAX_SEQUENCE_LENGTH;
use sui_adapter::engine::{apply_conservation_outcome, short_circuit, CONGESTED, RANDOMNESS_UNAVAILABLE};
use sui_adapter::error::{ExecutionError, ExecutionErrorKind, FatalError, ObjectId};
use sui_adapter::limits::{
    check_limit_by_meter, check_limit_in_range, check_meter_limit, check_written_objects_limit,
    LimitThresholdCrossed,
};
use sui_adapter::program::{
    Argument, BuildError, CallArg, Command, ObjectArg, ProgramBuilder, SystemFunction, TypeTag,
};
use sui_adapter::system_tx::{
    authenticator_state_update_pt, bridge_chain_id, consensus_commit_prologue_pt,
    construct_advance_epoch_pt, construct_advance_epoch_safe_mode_pt, randomness_state_update_pt,
    setup_authenticator_state_create, setup_bridge_committee_update, setup_bridge_create,
    setup_store_execution_time_estimates, AdvanceEpochParams, BRIDGE_PACKAGE_ID,
    SUI_FRAMEWORK_PACKAGE_ID, SUI_SYSTEM_PACKAGE_ID,
};
use sui_adapter::config::ProtocolConfig;
use sui_adapter::transaction::{AuthenticatorStateUpdate, ChainIdentifier, RandomnessStateUpdate};

fn config() -> ProtocolConfig {
    ProtocolConfig {
        max_serialized_tx_effects_size_bytes: 100_000,
        max_serialized_tx_effects_size_bytes_system_tx: 200_000,
        max_size_written_objects: Some(1_000),
        max_size_written_objects_system_tx: Some(2_000),
        storage_fund_reinvest_rate: 500,
        reward_slashing_rate: 1_000,
        advance_epoch_start_time_in_safe_mode: false,
        fresh_vm_on_framework_upgrade: false,
        enable_jwk_consensus_updates: true,
        random_beacon: true,
        enable_coin_deny_list_v1: true,
        enable_bridge: true,
        should_try_to_finalize_bridge_committee: true,
        execution_time_estimate_congestion_control: true,
        enable_accumulators: true,
    }
}

fn params() -> AdvanceEpochParams {
    AdvanceEpochParams {
        epoch: 7,
        next_protocol_version: 42,
        storage_charge: 1_000,
        computation_charge: 2_000,
        storage_rebate: 300,
        non_refundable_storage_fee: 4,
        storage_fund_reinvest_rate: 500,
        reward_slashing_rate: 1_000,
        epoch_start_timestamp_ms: 1_700_000_000_000,
    }
}

fn pure(inputs: &[CallArg], a: &Argument) -> Vec<u8> {
    match a {
        Argument::Input(i) => match &inputs[*i] {
            CallArg::Pure(b) => b.clone(),
            other => panic!("expected pure input, got {:?}", other),
        },
        other => panic!("expected input, got {:?}", other),
    }
}

fn object(inputs: &[CallArg], a: &Argument) -> ObjectArg {
    match a {
        Argument::Input(i) => match &inputs[*i] {
            CallArg::Object(o) => *o,
            other => panic!("expected object input, got {:?}", other),
        },
        other => panic!("expected input, got {:?}", other),
    }
}

fn call(c: &Command) -> (ObjectId, SystemFunction, Vec<TypeTag>, Vec<Argument>) {
    match c {
        Command::MoveCall { package, function, type_arguments, arguments } => {
            (*package, *function, type_arguments.clone(), arguments.clone())
        }
        other => panic!("expected a call, got {:?}", other),
    }
}

fn system_state() -> ObjectArg {
    ObjectArg::SharedObject { id: 5, initial_shared_version: 1, mutable: true }
}

#[test]
fn limit_in_range_orders_hard_before_soft() {
    assert_eq!(check_limit_in_range(5, 10, 20), LimitThresholdCrossed::Within);
    assert_eq!(check_limit_in_range(10, 10, 20), LimitThresholdCrossed::Soft(10, 10));
    assert_eq!(check_limit_in_range(20, 10, 20), LimitThresholdCrossed::Hard(20, 20));
    assert_eq!(check_limit_in_range(10, 10, 10), LimitThresholdCrossed::Hard(10, 10));
}

#[test]
fn metered_transactions_have_no_soft_limit() {
    assert_eq!(check_limit_by_meter(true, 11, 10, 20), LimitThresholdCrossed::Hard(11, 10));
    assert_eq!(check_limit_by_meter(false, 11, 10, 20), LimitThresholdCrossed::Soft(11, 10));
    assert_eq!(check_limit_by_meter(false, 21, 10, 20), LimitThresholdCrossed::Hard(21, 20));
}

#[test]
fn written_objects_soft_crossing_succeeds_hard_crossing_fails() {
    assert!(check_written_objects_limit(false, 1_001, Some(1_000), Some(2_000)).is_ok());
    let err = check_written_objects_limit(false, 2_001, Some(1_000), Some(2_000)).unwrap_err();
    assert_eq!(
        err.kind,
        ExecutionErrorKind::WrittenObjectsTooLarge { current_size: 2_001, max_size: 2_000 }
    );
    assert!(err.command.is_none());
}

#[test]
fn written_objects_limit_needs_both_thresholds() {
    assert!(check_written_objects_limit(true, u64::MAX, None, Some(2_000)).is_ok());
    assert!(check_written_objects_limit(true, u64::MAX, Some(1_000), None).is_ok());
    let err = check_written_objects_limit(true, 1_001, Some(1_000), Some(2_000)).unwrap_err();
    assert_eq!(
        err.kind,
        ExecutionErrorKind::WrittenObjectsTooLarge { current_size: 1_001, max_size: 1_000 }
    );
}

#[test]
fn effects_size_soft_crossing_succeeds_hard_crossing_fails() {
    assert!(check_meter_limit(false, 100_001, 100_000, 200_000).is_ok());
    let err = check_meter_limit(false, 200_001, 100_000, 200_000).unwrap_err();
    assert_eq!(
        err.kind,
        ExecutionErrorKind::EffectsTooLarge { current_size: 200_001, max_size: 200_000 }
    );
    assert!(check_meter_limit(true, 100_000, 100_000, 200_000).is_err());
    assert!(check_meter_limit(true, 99_999, 100_000, 200_000).is_ok());
}

#[test]
fn builder_shares_slots_of_equal_pure_values() {
    let mut b = ProgramBuilder::new();
    let a = b.pure_bytes(vec![1, 2, 3]);
    let c = b.pure_bytes(vec![1, 2, 3]);
    let d = b.pure_bytes(vec![1, 2]);
    assert_eq!(a, Argument::Input(0));
    assert_eq!(c, Argument::Input(0));
    assert_eq!(d, Argument::Input(1));
    assert_eq!(b.inputs.len(), 2);
}

#[test]
fn builder_merges_shared_object_uses() {
    let mut b = ProgramBuilder::new();
    let read = ObjectArg::SharedObject { id: 9, initial_shared_version: 3, mutable: false };
    let write = ObjectArg::SharedObject { id: 9, initial_shared_version: 3, mutable: true };
    assert_eq!(b.obj(read), Ok(Argument::Input(0)));
    assert_eq!(b.obj(write), Ok(Argument::Input(0)));
    assert_eq!(b.inputs.len(), 1);
    assert_eq!(object(&b.inputs, &Argument::Input(0)), write);
    let other_version = ObjectArg::SharedObject { id: 9, initial_shared_version: 4, mutable: true };
    assert_eq!(b.obj(other_version), Err(BuildError::MismatchedObjectArgument));
    let owned = ObjectArg::ImmOrOwnedObject { id: 9, version: 3 };
    assert_eq!(b.obj(owned), Err(BuildError::MismatchedObjectArgument));
    assert_eq!(b.inputs.len(), 1);
}

#[test]
fn advance_epoch_program_passes_every_parameter() {
    let p = params();
    let pt = construct_advance_epoch_pt(ProgramBuilder::new(), &p).unwrap();
    assert_eq!(pt.commands.len(), 4);
    let (pkg, f, t, a) = call(&pt.commands[0]);
    assert_eq!((pkg, f, t), (SUI_FRAMEWORK_PACKAGE_ID, SystemFunction::BalanceCreateRewards, vec![TypeTag::Sui]));
    assert_eq!(pure(&pt.inputs, &a[0]), 1_000u64.to_le_bytes().to_vec());
    let (_, f, _, a) = call(&pt.commands[1]);
    assert_eq!(f, SystemFunction::BalanceCreateRewards);
    assert_eq!(pure(&pt.inputs, &a[0]), 2_000u64.to_le_bytes().to_vec());
    let (pkg, f, t, a) = call(&pt.commands[2]);
    assert_eq!((pkg, f), (SUI_SYSTEM_PACKAGE_ID, SystemFunction::AdvanceEpoch));
    assert!(t.is_empty());
    assert_eq!(a.len(), 10);
    assert_eq!(a[0], Argument::Output(0));
    assert_eq!(a[1], Argument::Output(1));
    assert_eq!(object(&pt.inputs, &a[2]), system_state());
    let expected: [u64; 7] = [7, 42, 300, 4, 500, 1_000, 1_700_000_000_000];
    for (k, v) in expected.iter().enumerate() {
        assert_eq!(pure(&pt.inputs, &a[3 + k]), v.to_le_bytes().to_vec());
    }
    let (pkg, f, t, a) = call(&pt.commands[3]);
    assert_eq!((pkg, f, t), (SUI_FRAMEWORK_PACKAGE_ID, SystemFunction::BalanceDestroyRebates, vec![TypeTag::Sui]));
    assert_eq!(a, vec![Argument::Output(2)]);
}

#[test]
fn advance_epoch_program_shares_equal_charges() {
    let mut p = params();
    p.computation_charge = p.storage_charge;
    let pt = construct_advance_epoch_pt(ProgramBuilder::new(), &p).unwrap();
    let (_, _, _, first) = call(&pt.commands[0]);
    let (_, _, _, second) = call(&pt.commands[1]);
    assert_eq!(first, second);
}

#[test]
fn advance_epoch_program_appends_to_maintenance_calls() {
    let b = setup_authenticator_state_create(ProgramBuilder::new());
    let pt = construct_advance_epoch_pt(b, &params()).unwrap();
    assert_eq!(pt.commands.len(), 5);
    let (_, f, _, a) = call(&pt.commands[0]);
    assert_eq!(f, SystemFunction::AuthenticatorStateCreate);
    assert!(a.is_empty());
    let (_, f, _, a) = call(&pt.commands[3]);
    assert_eq!(f, SystemFunction::AdvanceEpoch);
    assert_eq!(a[0], Argument::Output(1));
}

#[test]
fn advance_epoch_program_refuses_conflicting_system_state() {
    let mut b = ProgramBuilder::new();
    b.obj(ObjectArg::ImmOrOwnedObject { id: 5, version: 1 }).unwrap();
    let err = construct_advance_epoch_pt(b, &params()).unwrap_err();
    assert_eq!(err.kind, ExecutionErrorKind::InvariantViolation);
}

#[test]
fn safe_mode_program_passes_start_time_only_when_asked() {
    let mut c = config();
    let pt = construct_advance_epoch_safe_mode_pt(&params(), &c).unwrap();
    assert_eq!(pt.commands.len(), 3);
    let (pkg, f, _, a) = call(&pt.commands[2]);
    assert_eq!((pkg, f), (SUI_SYSTEM_PACKAGE_ID, SystemFunction::AdvanceEpochSafeMode));
    assert_eq!(a.len(), 7);
    assert_eq!(pure(&pt.inputs, &a[6]), 4u64.to_le_bytes().to_vec());
    c.advance_epoch_start_time_in_safe_mode = true;
    let pt = construct_advance_epoch_safe_mode_pt(&params(), &c).unwrap();
    let (_, _, _, a) = call(&pt.commands[2]);
    assert_eq!(a.len(), 8);
    assert_eq!(pure(&pt.inputs, &a[7]), 1_700_000_000_000u64.to_le_bytes().to_vec());
}

#[test]
fn consensus_prologue_sets_clock_to_timestamp() {
    let pt = consensus_commit_prologue_pt(0x0102_0304_0506_0708);
    let (pkg, f, _, a) = call(&pt.commands[0]);
    assert_eq!((pkg, f), (SUI_FRAMEWORK_PACKAGE_ID, SystemFunction::ConsensusCommitPrologue));
    assert_eq!(
        object(&pt.inputs, &a[0]),
        ObjectArg::SharedObject { id: 6, initial_shared_version: 1, mutable: true }
    );
    assert_eq!(pure(&pt.inputs, &a[1]), vec![8, 7, 6, 5, 4, 3, 2, 1]);
}

#[test]
fn randomness_update_encodes_bytes_with_length() {
    let update = RandomnessStateUpdate {
        epoch: 3,
        randomness_round: 9,
        random_bytes: vec![0xab; 200],
        randomness_obj_initial_shared_version: 17,
    };
    let pt = randomness_state_update_pt(&update).unwrap();
    let (_, f, _, a) = call(&pt.commands[0]);
    assert_eq!(f, SystemFunction::RandomnessStateUpdate);
    assert_eq!(
        object(&pt.inputs, &a[0]),
        ObjectArg::SharedObject { id: 8, initial_shared_version: 17, mutable: true }
    );
    assert_eq!(pure(&pt.inputs, &a[1]), 9u64.to_le_bytes().to_vec());
    let bytes = pure(&pt.inputs, &a[2]);
    assert_eq!(&bytes[..2], &[0xc8, 0x01]);
    assert_eq!(bytes.len(), 202);
    assert!(bytes[2..].iter().all(|b| *b == 0xab));
    assert!(MAX_SEQUENCE_LENGTH > 200);
}

#[test]
fn authenticator_update_passes_jwks_as_given() {
    let update = AuthenticatorStateUpdate {
        epoch: 1,
        round: 2,
        new_active_jwks: vec![1, 9, 9],
        authenticator_obj_initial_shared_version: 5,
    };
    let pt = authenticator_state_update_pt(&update);
    let (_, f, _, a) = call(&pt.commands[0]);
    assert_eq!(f, SystemFunction::AuthenticatorStateUpdate);
    assert_eq!(
        object(&pt.inputs, &a[0]),
        ObjectArg::SharedObject { id: 7, initial_shared_version: 5, mutable: true }
    );
    assert_eq!(pure(&pt.inputs, &a[1]), vec![1, 9, 9]);
}

#[test]
fn bridge_chain_codes() {
    assert_eq!(bridge_chain_id(ChainIdentifier { prefix: 0x35834a8a }), 0);
    assert_eq!(bridge_chain_id(ChainIdentifier { prefix: 0x4c78adac }), 1);
    assert_eq!(bridge_chain_id(ChainIdentifier { prefix: 0x1234 }), 2);
}

#[test]
fn bridge_create_passes_uid_and_chain_code() {
    let b = setup_bridge_create(ProgramBuilder::new(), ChainIdentifier { prefix: 0x4c78adac });
    let (pkg, f, _, a) = call(&b.commands[0]);
    assert_eq!((pkg, f), (BRIDGE_PACKAGE_ID, SystemFunction::BridgeCreate));
    let mut uid = vec![0u8; 31];
    uid.push(9);
    assert_eq!(pure(&b.inputs, &a[0]), uid);
    assert_eq!(pure(&b.inputs, &a[1]), vec![1]);
}

#[test]
fn bridge_committee_uses_voting_powers_and_minimum() {
    let b = setup_bridge_committee_update(ProgramBuilder::new(), 12).unwrap();
    assert_eq!(b.commands.len(), 2);
    let (pkg, f, _, a) = call(&b.commands[0]);
    assert_eq!((pkg, f), (SUI_SYSTEM_PACKAGE_ID, SystemFunction::ValidatorVotingPowers));
    assert_eq!(object(&b.inputs, &a[0]), system_state());
    let (pkg, f, _, a) = call(&b.commands[1]);
    assert_eq!((pkg, f), (BRIDGE_PACKAGE_ID, SystemFunction::BridgeInitCommittee));
    assert_eq!(
        object(&b.inputs, &a[0]),
        ObjectArg::SharedObject { id: 9, initial_shared_version: 12, mutable: true }
    );
    assert_eq!(a[1], Argument::Output(0));
    assert_eq!(pure(&b.inputs, &a[2]), 7500u64.to_le_bytes().to_vec());
}

#[test]
fn execution_time_estimates_share_the_system_state_slot() {
    let b = setup_bridge_committee_update(ProgramBuilder::new(), 12).unwrap();
    let b = setup_store_execution_time_estimates(b, vec![4, 5]).unwrap();
    let (pkg, f, _, a) = call(&b.commands[2]);
    assert_eq!((pkg, f), (SUI_SYSTEM_PACKAGE_ID, SystemFunction::StoreExecutionTimeEstimates));
    assert_eq!(a[0], Argument::Input(1));
    assert_eq!(pure(&b.inputs, &a[1]), vec![2, 4, 5]);
}

#[test]
fn short_circuit_order_and_kinds() {
    let e = short_circuit(true, true, Some((vec![1], CONGESTED))).unwrap().unwrap();
    assert_eq!(e.kind, ExecutionErrorKind::CertificateDenied);
    let e = short_circuit(false, true, Some((vec![1], CONGESTED))).unwrap().unwrap();
    assert_eq!(e.kind, ExecutionErrorKind::InputObjectDeleted);
    let e = short_circuit(false, false, Some((vec![1, 2], CONGESTED))).unwrap().unwrap();
    assert_eq!(
        e.kind,
        ExecutionErrorKind::ExecutionCancelledDueToSharedObjectCongestion { congested_objects: vec![1, 2] }
    );
    let e = short_circuit(false, false, Some((vec![], RANDOMNESS_UNAVAILABLE))).unwrap().unwrap();
    assert_eq!(e.kind, ExecutionErrorKind::ExecutionCancelledDueToRandomnessUnavailable);
    assert!(short_circuit(false, false, None).unwrap().is_none());
    assert_eq!(short_circuit(false, false, Some((vec![], 5))).unwrap_err(), FatalError::InvalidCancellationReason);
}

#[test]
fn conservation_outcome_replaces_result() {
    let abort = ExecutionError { kind: ExecutionErrorKind::MoveAbort { code: 1 }, command: Some(0) };
    let violation = ExecutionError { kind: ExecutionErrorKind::InvariantViolation, command: None };
    let r = apply_conservation_outcome(Err(abort.clone()), Err(violation.clone()));
    assert_eq!(r.unwrap_err().kind, ExecutionErrorKind::InvariantViolation);
    let r = apply_conservation_outcome(Err(abort), Ok(()));
    assert_eq!(r.unwrap_err().kind, ExecutionErrorKind::MoveAbort { code: 1 });
    assert!(apply_conservation_outcome(Ok(()), Ok(())).is_ok());
}
