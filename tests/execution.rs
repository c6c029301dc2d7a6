use std::cell::RefCell;

use sui_adapter::config::ProtocolConfig;
use sui_adapter::effects::ExecutionStatus;
use sui_adapter::engine::{
    advance_epoch, advance_epoch_fallback, advance_epoch_params, prepare_end_of_epoch,
    process_system_packages, execute_genesis_state_update, execute_transaction_to_effects,
    CheckedInputObjects, ExecutionMode, ExecutionOutput, GasData, ProgramExecutor, TxContext,
    CONGESTED, RANDOMNESS_UNAVAILABLE,
};
use sui_adapter::error::{ExecutionError, ExecutionErrorKind, FatalError};
use sui_adapter::gas::GasCharger;
use sui_adapter::program::{Command, ProgramBuilder, ProgrammableTransaction, SystemFunction};
use sui_adapter::store::{InputObject, ObjectRecord, ProgramEffects, TemporaryStore};
use sui_adapter::transaction::{
    ChangeEpoch, ConsensusCommitPrologue, EndOfEpochTransactionKind, GenesisObject,
    GenesisTransaction, Owner, SystemPackage, TransactionKind,
};

/// Answers each program run with the next scripted outcome (success with no
/// writes once the script is exhausted) and records what it was asked.
struct ScriptedVm {
    outcomes: RefCell<Vec<Result<ProgramEffects, ExecutionError>>>,
    runs: RefCell<Vec<(ExecutionMode, ProgrammableTransaction)>>,
}

impl ScriptedVm {
    fn new(outcomes: Vec<Result<ProgramEffects, ExecutionError>>) -> Self {
        ScriptedVm { outcomes: RefCell::new(outcomes), runs: RefCell::new(vec![]) }
    }

    fn functions(&self) -> Vec<SystemFunction> {
        let mut r = vec![];
        for (_, pt) in self.runs.borrow().iter() {
            for c in pt.commands.iter() {
                if let Command::MoveCall { function, .. } = c {
                    r.push(*function);
                }
            }
        }
        r
    }
}

impl ProgramExecutor for ScriptedVm {
    fn execute_program(
        &self,
        mode: ExecutionMode,
        _store: &TemporaryStore,
        _ctx: &TxContext,
        program: &ProgrammableTransaction,
    ) -> Result<ProgramEffects, ExecutionError> {
        self.runs.borrow_mut().push((mode, program.clone()));
        let mut outcomes = self.outcomes.borrow_mut();
        if outcomes.is_empty() {
            Ok(ProgramEffects { written: vec![], deleted: vec![], computation_cost: 0 })
        } else {
            outcomes.remove(0)
        }
    }

    fn fresh_for_framework_upgrade(&self, _protocol_config: &ProtocolConfig) -> Option<Self> {
        Some(ScriptedVm::new(vec![]))
    }
}

fn config() -> ProtocolConfig {
    ProtocolConfig {
        max_serialized_tx_effects_size_bytes: 100_000,
        max_serialized_tx_effects_size_bytes_system_tx: 200_000,
        max_size_written_objects: Some(1_000),
        max_size_written_objects_system_tx: Some(2_000),
        storage_fund_reinvest_rate: 500,
        reward_slashing_rate: 1_000,
        advance_epoch_start_time_in_safe_mode: false,
        fresh_vm_on_framework_upgrade: false,
        enable_jwk_consensus_updates: true,
        random_beacon: true,
        enable_coin_deny_list_v1: true,
        enable_bridge: true,
        should_try_to_finalize_bridge_committee: true,
        execution_time_estimate_congestion_control: true,
        enable_accumulators: true,
    }
}

const SENDER: u64 = 77;
const DIGEST: u64 = 1234;

fn coin(id: u64, version: u64, balance: u64) -> ObjectRecord {
    ObjectRecord {
        id,
        version,
        owner: Owner::AddressOwner(SENDER),
        balance,
        storage_rebate: 10,
        previous_transaction: 500 + id,
        is_package: false,
        size: 40,
    }
}

fn input(object: ObjectRecord, mutable: bool) -> InputObject {
    InputObject { object, mutable }
}

fn inputs(objects: Vec<InputObject>) -> CheckedInputObjects {
    CheckedInputObjects { objects, contains_consensus_stream_ended: false, cancelled: None }
}

fn paid_gas(budget: u64) -> GasData {
    GasData { payment: Some(1), owner: SENDER, price: 2, reference_gas_price: 1, budget }
}

fn system_gas() -> GasData {
    GasData { payment: None, owner: 0, price: 0, reference_gas_price: 1, budget: 0 }
}

fn empty_program() -> ProgrammableTransaction {
    ProgramBuilder::new().finish()
}

fn run(
    vm: &ScriptedVm,
    objects: CheckedInputObjects,
    gas: GasData,
    kind: TransactionKind,
    epoch: u64,
    config: &ProtocolConfig,
    expensive: bool,
    deny: &Vec<u64>,
) -> Result<ExecutionOutput, FatalError> {
    execute_transaction_to_effects(
        vm,
        ExecutionMode::Normal,
        objects,
        gas,
        kind,
        SENDER,
        DIGEST,
        epoch,
        1_000,
        config,
        expensive,
        deny,
    )
}

fn total(objects: &[ObjectRecord]) -> u128 {
    objects.iter().map(|o| o.balance as u128 + o.storage_rebate as u128).sum()
}

fn change_epoch(packages: Vec<SystemPackage>) -> ChangeEpoch {
    ChangeEpoch {
        epoch: 8,
        protocol_version: 43,
        storage_charge: 100,
        computation_charge: 200,
        storage_rebate: 50,
        non_refundable_storage_fee: 0,
        epoch_start_timestamp_ms: 9_000,
        system_packages: packages,
    }
}

fn system_state_object(balance: u64) -> ObjectRecord {
    ObjectRecord {
        id: 5,
        version: 20,
        owner: Owner::Shared { initial_shared_version: 1 },
        balance,
        storage_rebate: 0,
        previous_transaction: 900,
        is_package: false,
        size: 100,
    }
}

#[test]
fn transfer_succeeds_and_pays_gas() {
    // Coin 2 sends 30 to coin 3; computation costs 6 on top of 3 inputs at price 2.
    let vm = ScriptedVm::new(vec![Ok(ProgramEffects {
        written: vec![coin(2, 4, 70), coin(3, 9, 30)],
        deleted: vec![],
        computation_cost: 6,
    })]);
    let objects = inputs(vec![
        input(coin(1, 3, 1_000), true),
        input(coin(2, 4, 100), true),
        input(coin(3, 9, 0), true),
    ]);
    let pt = empty_program();
    let out = run(&vm, objects, paid_gas(50), TransactionKind::ProgrammableTransaction(pt), 1, &config(), true, &vec![])
        .unwrap();
    assert!(out.result.is_ok());
    assert_eq!(out.effects.status, ExecutionStatus::Success);
    assert_eq!(out.effects.gas_used.computation_cost, 12);
    assert_eq!(out.effects.lamport_version, 10);
    assert_eq!(out.effects.changed_objects.len(), 3);
    assert!(out.effects.changed_objects.iter().all(|o| o.version == 10 && o.previous_transaction == DIGEST));
    let gas_coin = out.effects.changed_objects.iter().find(|o| o.id == 1).unwrap();
    assert_eq!(gas_coin.balance, 988);
    assert_eq!(total(&out.effects.changed_objects) + 12, 1_100 + 30);
}

#[test]
fn failed_program_still_charges_gas_and_bumps_versions() {
    let vm = ScriptedVm::new(vec![Err(ExecutionError {
        kind: ExecutionErrorKind::MoveAbort { code: 3 },
        command: Some(0),
    })]);
    let objects = inputs(vec![input(coin(1, 3, 1_000), true), input(coin(2, 4, 100), true)]);
    let out = run(&vm, objects, paid_gas(50), TransactionKind::ProgrammableTransaction(empty_program()), 1, &config(), true, &vec![])
        .unwrap();
    assert_eq!(
        out.effects.status,
        ExecutionStatus::Failure { error: ExecutionErrorKind::MoveAbort { code: 3 }, command: Some(0) }
    );
    assert_eq!(out.effects.gas_used.computation_cost, 4);
    assert!(out.effects.changed_objects.iter().all(|o| o.version == 5));
    let gas_coin = out.effects.changed_objects.iter().find(|o| o.id == 1).unwrap();
    assert_eq!(gas_coin.balance, 996);
    let other = out.effects.changed_objects.iter().find(|o| o.id == 2).unwrap();
    assert_eq!(other.balance, 100);
}

#[test]
fn value_created_from_nothing_is_discarded() {
    let vm = ScriptedVm::new(vec![Ok(ProgramEffects {
        written: vec![coin(2, 4, 5_000)],
        deleted: vec![],
        computation_cost: 0,
    })]);
    let objects = inputs(vec![input(coin(1, 3, 1_000), true), input(coin(2, 4, 100), true)]);
    let out = run(&vm, objects, paid_gas(50), TransactionKind::ProgrammableTransaction(empty_program()), 1, &config(), true, &vec![])
        .unwrap();
    assert_eq!(
        out.effects.status,
        ExecutionStatus::Failure { error: ExecutionErrorKind::InvariantViolation, command: None }
    );
    assert_eq!(out.effects.gas_used.computation_cost, 4);
    let other = out.effects.changed_objects.iter().find(|o| o.id == 2).unwrap();
    assert_eq!(other.balance, 100);
    assert_eq!(total(&out.effects.changed_objects) + 4, 1_100 + 20);
}

#[test]
fn denied_certificate_fails_without_running() {
    let vm = ScriptedVm::new(vec![]);
    let objects = inputs(vec![input(coin(1, 3, 1_000), true)]);
    let out = run(&vm, objects, paid_gas(50), TransactionKind::ProgrammableTransaction(empty_program()), 1, &config(), false, &vec![DIGEST])
        .unwrap();
    assert_eq!(
        out.effects.status,
        ExecutionStatus::Failure { error: ExecutionErrorKind::CertificateDenied, command: None }
    );
    assert!(vm.runs.borrow().is_empty());
    assert_eq!(out.effects.gas_used.computation_cost, 2);
}

#[test]
fn deleted_input_fails_without_running() {
    let vm = ScriptedVm::new(vec![]);
    let mut objects = inputs(vec![input(coin(1, 3, 1_000), true)]);
    objects.contains_consensus_stream_ended = true;
    let out = run(&vm, objects, paid_gas(50), TransactionKind::ProgrammableTransaction(empty_program()), 1, &config(), false, &vec![])
        .unwrap();
    assert_eq!(
        out.effects.status,
        ExecutionStatus::Failure { error: ExecutionErrorKind::InputObjectDeleted, command: None }
    );
    assert!(vm.runs.borrow().is_empty());
}

#[test]
fn cancellation_reasons() {
    let vm = ScriptedVm::new(vec![]);
    let mut objects = inputs(vec![input(coin(1, 3, 1_000), true)]);
    objects.cancelled = Some((vec![40, 41], CONGESTED));
    let out = run(&vm, objects, paid_gas(50), TransactionKind::ProgrammableTransaction(empty_program()), 1, &config(), false, &vec![])
        .unwrap();
    assert_eq!(
        out.effects.status,
        ExecutionStatus::Failure {
            error: ExecutionErrorKind::ExecutionCancelledDueToSharedObjectCongestion { congested_objects: vec![40, 41] },
            command: None
        }
    );
    let mut objects = inputs(vec![input(coin(1, 3, 1_000), true)]);
    objects.cancelled = Some((vec![], RANDOMNESS_UNAVAILABLE));
    let out = run(&vm, objects, paid_gas(50), TransactionKind::ProgrammableTransaction(empty_program()), 1, &config(), false, &vec![])
        .unwrap();
    assert_eq!(
        out.effects.status,
        ExecutionStatus::Failure { error: ExecutionErrorKind::ExecutionCancelledDueToRandomnessUnavailable, command: None }
    );
    let mut objects = inputs(vec![input(coin(1, 3, 1_000), true)]);
    objects.cancelled = Some((vec![], 99));
    let r = run(&vm, objects, paid_gas(50), TransactionKind::ProgrammableTransaction(empty_program()), 1, &config(), false, &vec![]);
    assert_eq!(r.unwrap_err(), FatalError::InvalidCancellationReason);
    assert!(vm.runs.borrow().is_empty());
}

#[test]
fn insufficient_gas_for_inputs() {
    let vm = ScriptedVm::new(vec![]);
    let objects = inputs(vec![input(coin(1, 3, 1_000), true), input(coin(2, 4, 100), true)]);
    let out = run(&vm, objects, paid_gas(3), TransactionKind::ProgrammableTransaction(empty_program()), 1, &config(), false, &vec![])
        .unwrap();
    assert_eq!(
        out.effects.status,
        ExecutionStatus::Failure { error: ExecutionErrorKind::InsufficientGas, command: None }
    );
    assert_eq!(out.effects.gas_used.computation_cost, 3);
    assert!(vm.runs.borrow().is_empty());
}

#[test]
fn written_objects_over_hard_limit_fail() {
    let mut big = coin(2, 4, 100);
    big.size = 1_500;
    let vm = ScriptedVm::new(vec![Ok(ProgramEffects { written: vec![big], deleted: vec![], computation_cost: 0 })]);
    let objects = inputs(vec![input(coin(1, 3, 1_000), true), input(coin(2, 4, 100), true)]);
    let out = run(&vm, objects, paid_gas(50), TransactionKind::ProgrammableTransaction(empty_program()), 1, &config(), false, &vec![])
        .unwrap();
    assert_eq!(
        out.effects.status,
        ExecutionStatus::Failure {
            error: ExecutionErrorKind::WrittenObjectsTooLarge { current_size: 1_540, max_size: 1_000 },
            command: None
        }
    );
    let other = out.effects.changed_objects.iter().find(|o| o.id == 2).unwrap();
    assert_eq!(other.size, 40);
}

#[test]
fn effects_over_hard_limit_fail() {
    let mut c = config();
    c.max_serialized_tx_effects_size_bytes = 1_300;
    let vm = ScriptedVm::new(vec![]);
    let objects = inputs(vec![input(coin(1, 3, 1_000), true), input(coin(2, 4, 100), true)]);
    let out = run(&vm, objects, paid_gas(50), TransactionKind::ProgrammableTransaction(empty_program()), 1, &c, false, &vec![])
        .unwrap();
    assert_eq!(
        out.effects.status,
        ExecutionStatus::Failure {
            error: ExecutionErrorKind::EffectsTooLarge { current_size: 1_400, max_size: 1_300 },
            command: None
        }
    );
}

#[test]
fn writing_a_read_only_input_is_fatal_under_expensive_checks() {
    let emptied = ObjectRecord { balance: 0, storage_rebate: 0, ..coin(2, 4, 100) };
    let vm = ScriptedVm::new(vec![Ok(ProgramEffects {
        written: vec![emptied],
        deleted: vec![],
        computation_cost: 0,
    })]);
    let objects = inputs(vec![input(coin(1, 3, 1_000), true), input(coin(2, 4, 100), false)]);
    let r = run(&vm, objects, paid_gas(50), TransactionKind::ProgrammableTransaction(empty_program()), 1, &config(), true, &vec![]);
    assert_eq!(r.unwrap_err(), FatalError::OwnershipInvariantViolated);
}

#[test]
fn dependencies_skip_genesis_marker() {
    let vm = ScriptedVm::new(vec![]);
    let mut from_genesis = coin(2, 4, 100);
    from_genesis.previous_transaction = 0;
    let mut same_tx = coin(3, 4, 100);
    same_tx.previous_transaction = 501;
    let objects = inputs(vec![input(coin(1, 3, 1_000), true), input(from_genesis, true), input(same_tx, false)]);
    let out = run(&vm, objects, paid_gas(50), TransactionKind::ProgrammableTransaction(empty_program()), 1, &config(), false, &vec![])
        .unwrap();
    assert_eq!(out.effects.dependencies, vec![501]);
}

#[test]
fn genesis_creates_objects_at_start_version() {
    let vm = ScriptedVm::new(vec![]);
    let objects = vec![
        GenesisObject { id: 30, owner: Owner::AddressOwner(1), balance: 500, is_package: false, size: 10 },
        GenesisObject { id: 31, owner: Owner::Immutable, balance: 0, is_package: true, size: 99 },
        GenesisObject { id: 32, owner: Owner::Shared { initial_shared_version: 1 }, balance: 7, is_package: false, size: 1 },
    ];
    let kind = TransactionKind::Genesis(GenesisTransaction { objects: objects.clone() });
    let out = run(&vm, inputs(vec![]), system_gas(), kind, 0, &config(), true, &vec![]).unwrap();
    assert_eq!(out.effects.status, ExecutionStatus::Success);
    assert_eq!(out.effects.changed_objects.len(), 3);
    for (o, g) in out.effects.changed_objects.iter().zip(objects.iter()) {
        assert_eq!(o.id, g.id);
        assert_eq!(o.version, 1);
        assert_eq!(o.owner, g.owner);
        assert_eq!(o.balance, g.balance);
        assert_eq!(o.size, g.size);
        assert_eq!(o.storage_rebate, 0);
        assert_eq!(o.previous_transaction, DIGEST);
    }
    assert!(vm.runs.borrow().is_empty());
}

#[test]
fn genesis_outside_epoch_zero_is_fatal() {
    let vm = ScriptedVm::new(vec![]);
    let kind = TransactionKind::Genesis(GenesisTransaction {
        objects: vec![GenesisObject { id: 30, owner: Owner::Immutable, balance: 0, is_package: false, size: 1 }],
    });
    let r = run(&vm, inputs(vec![]), system_gas(), kind, 1, &config(), false, &vec![]);
    assert_eq!(r.unwrap_err(), FatalError::GenesisOutsideEpochZero);
}

#[test]
fn change_epoch_not_last_is_fatal() {
    let vm = ScriptedVm::new(vec![]);
    let kind = TransactionKind::EndOfEpochTransaction(vec![
        EndOfEpochTransactionKind::ChangeEpoch(change_epoch(vec![])),
        EndOfEpochTransactionKind::ChangeEpoch(change_epoch(vec![])),
    ]);
    let objects = inputs(vec![input(system_state_object(1_000), true)]);
    let r = run(&vm, objects, system_gas(), kind, 7, &config(), false, &vec![]);
    assert_eq!(r.unwrap_err(), FatalError::MalformedEndOfEpoch);
    assert!(vm.runs.borrow().is_empty());
    let kind = TransactionKind::EndOfEpochTransaction(vec![
        EndOfEpochTransactionKind::ChangeEpoch(change_epoch(vec![])),
        EndOfEpochTransactionKind::RandomnessStateCreate,
    ]);
    let objects = inputs(vec![input(system_state_object(1_000), true)]);
    let r = run(&vm, objects, system_gas(), kind, 7, &config(), false, &vec![]);
    assert_eq!(r.unwrap_err(), FatalError::MalformedEndOfEpoch);
    let r = run(&vm, inputs(vec![]), system_gas(), TransactionKind::EndOfEpochTransaction(vec![]), 7, &config(), false, &vec![]);
    assert_eq!(r.unwrap_err(), FatalError::MalformedEndOfEpoch);
}

#[test]
fn end_of_epoch_submits_actions_with_change_epoch() {
    let vm = ScriptedVm::new(vec![]);
    let kind = TransactionKind::EndOfEpochTransaction(vec![
        EndOfEpochTransactionKind::AuthenticatorStateCreate,
        EndOfEpochTransactionKind::DenyListStateCreate,
        EndOfEpochTransactionKind::ChangeEpoch(change_epoch(vec![])),
    ]);
    let objects = inputs(vec![input(system_state_object(1_000), true)]);
    let out = run(&vm, objects, system_gas(), kind, 7, &config(), false, &vec![]).unwrap();
    assert_eq!(out.effects.status, ExecutionStatus::Success);
    assert_eq!(vm.runs.borrow().len(), 1);
    assert_eq!(
        vm.functions(),
        vec![
            SystemFunction::AuthenticatorStateCreate,
            SystemFunction::DenyListCreate,
            SystemFunction::BalanceCreateRewards,
            SystemFunction::BalanceCreateRewards,
            SystemFunction::AdvanceEpoch,
            SystemFunction::BalanceDestroyRebates,
        ]
    );
    assert_eq!(vm.runs.borrow()[0].0, ExecutionMode::System);
}

#[test]
fn disabled_feature_is_fatal() {
    let mut c = config();
    c.enable_bridge = false;
    let vm = ScriptedVm::new(vec![]);
    let kind = TransactionKind::EndOfEpochTransaction(vec![
        EndOfEpochTransactionKind::BridgeCommitteeInit(4),
        EndOfEpochTransactionKind::ChangeEpoch(change_epoch(vec![])),
    ]);
    let r = run(&vm, inputs(vec![]), system_gas(), kind, 7, &c, false, &vec![]);
    assert_eq!(r.unwrap_err(), FatalError::FeatureDisabled);
}

#[test]
fn failed_epoch_advance_falls_back_to_safe_mode_program() {
    let vm = ScriptedVm::new(vec![Err(ExecutionError { kind: ExecutionErrorKind::MoveAbort { code: 1 }, command: Some(2) })]);
    let objects = inputs(vec![input(system_state_object(1_000), true)]);
    let kind = TransactionKind::ChangeEpoch(change_epoch(vec![]));
    let out = run(&vm, objects, system_gas(), kind, 7, &config(), false, &vec![]).unwrap();
    assert_eq!(out.effects.status, ExecutionStatus::Success);
    assert_eq!(vm.runs.borrow().len(), 2);
    assert_eq!(
        vm.functions()[4..].to_vec(),
        vec![
            SystemFunction::BalanceCreateRewards,
            SystemFunction::BalanceCreateRewards,
            SystemFunction::AdvanceEpochSafeMode,
        ]
    );
}

#[test]
fn failed_epoch_advance_sets_start_time_directly_when_configured() {
    let mut c = config();
    c.advance_epoch_start_time_in_safe_mode = true;
    let vm = ScriptedVm::new(vec![Err(ExecutionError { kind: ExecutionErrorKind::VMInvariantViolation, command: None })]);
    let mut store = TemporaryStore::new(vec![input(system_state_object(1_000), true)], DIGEST, 7).unwrap();
    let mut gas = GasCharger::new_unmetered();
    let ctx = TxContext {
        sender: 0,
        digest: DIGEST,
        epoch: 7,
        epoch_timestamp_ms: 0,
        reference_gas_price: 1,
        gas_price: 0,
        gas_budget: 0,
        sponsor: None,
    };
    let ce = change_epoch(vec![]);
    let r = advance_epoch(ProgramBuilder::new(), &ce, &mut store, &vm, &mut gas, &ctx, &c);
    assert!(matches!(r, Ok(Ok(()))));
    assert_eq!(vm.runs.borrow().len(), 1);
    let params = store.safe_mode_advance.unwrap();
    assert_eq!(params.epoch, 8);
    assert_eq!(params.epoch_start_timestamp_ms, 9_000);
    assert_eq!(store.written[0].balance, 1_000 + 100 + 200 - 50);
}

#[test]
fn failed_safe_mode_program_is_fatal() {
    let abort = || Err(ExecutionError { kind: ExecutionErrorKind::MoveAbort { code: 1 }, command: None });
    let vm = ScriptedVm::new(vec![abort(), abort()]);
    let objects = inputs(vec![input(system_state_object(1_000), true)]);
    let r = run(&vm, objects, system_gas(), TransactionKind::ChangeEpoch(change_epoch(vec![])), 7, &config(), false, &vec![]);
    assert_eq!(r.unwrap_err(), FatalError::SafeModeAdvanceFailed);
}

#[test]
fn upgraded_system_package_shows_its_version() {
    let vm = ScriptedVm::new(vec![]);
    let package = SystemPackage { id: 2, version: 5, modules: vec![vec![1, 2, 3], vec![4]], dependencies: vec![1] };
    let objects = inputs(vec![input(system_state_object(1_000), true)]);
    let out = run(&vm, objects, system_gas(), TransactionKind::ChangeEpoch(change_epoch(vec![package])), 7, &config(), false, &vec![])
        .unwrap();
    let p = out.effects.changed_objects.iter().find(|o| o.id == 2).unwrap();
    assert!(p.is_package);
    assert_eq!(p.version, 5);
    assert_eq!(p.size, 4);
    let state = out.effects.changed_objects.iter().find(|o| o.id == 5).unwrap();
    assert_eq!(state.version, 21);
}

#[test]
fn initial_system_package_is_published() {
    let vm = ScriptedVm::new(vec![]);
    let package = SystemPackage { id: 0xdee9, version: 1, modules: vec![vec![9]], dependencies: vec![1, 2] };
    let objects = inputs(vec![input(system_state_object(1_000), true)]);
    let out = run(&vm, objects, system_gas(), TransactionKind::ChangeEpoch(change_epoch(vec![package])), 7, &config(), false, &vec![])
        .unwrap();
    assert_eq!(out.effects.status, ExecutionStatus::Success);
    let runs = vm.runs.borrow();
    assert_eq!(runs.len(), 2);
    match &runs[1].1.commands[0] {
        Command::Publish { modules, dependencies } => {
            assert_eq!(modules, &vec![vec![9u8]]);
            assert_eq!(dependencies, &vec![1, 2]);
        }
        other => panic!("expected a publish, got {:?}", other),
    }
}

#[test]
fn failed_publish_of_system_package_is_fatal() {
    let vm = ScriptedVm::new(vec![
        Ok(ProgramEffects { written: vec![], deleted: vec![], computation_cost: 0 }),
        Err(ExecutionError { kind: ExecutionErrorKind::PublishUpgradeMissingDependency, command: Some(0) }),
    ]);
    let package = SystemPackage { id: 0xdee9, version: 1, modules: vec![vec![9]], dependencies: vec![] };
    let objects = inputs(vec![input(system_state_object(1_000), true)]);
    let r = run(&vm, objects, system_gas(), TransactionKind::ChangeEpoch(change_epoch(vec![package])), 7, &config(), false, &vec![]);
    assert_eq!(r.unwrap_err(), FatalError::SystemPackagePublishFailed);
}

#[test]
fn consensus_prologue_failure_is_fatal() {
    let vm = ScriptedVm::new(vec![Err(ExecutionError { kind: ExecutionErrorKind::MoveAbort { code: 2 }, command: Some(0) })]);
    let kind = TransactionKind::ConsensusCommitPrologueV3(ConsensusCommitPrologue { epoch: 1, round: 2, commit_timestamp_ms: 3 });
    let r = run(&vm, inputs(vec![]), system_gas(), kind, 1, &config(), false, &vec![]);
    assert_eq!(r.unwrap_err(), FatalError::ConsensusCommitPrologueFailed);
}

#[test]
fn consensus_prologue_runs_as_system() {
    let vm = ScriptedVm::new(vec![]);
    let kind = TransactionKind::ConsensusCommitPrologue(ConsensusCommitPrologue { epoch: 1, round: 2, commit_timestamp_ms: 3 });
    let out = run(&vm, inputs(vec![]), system_gas(), kind, 1, &config(), true, &vec![]).unwrap();
    assert_eq!(out.effects.status, ExecutionStatus::Success);
    assert_eq!(vm.functions(), vec![SystemFunction::ConsensusCommitPrologue]);
    assert_eq!(vm.runs.borrow()[0].0, ExecutionMode::System);
}

#[test]
fn genesis_program_writes_at_final_versions() {
    let vm = ScriptedVm::new(vec![Ok(ProgramEffects {
        written: vec![coin(40, 1, 10)],
        deleted: vec![],
        computation_cost: 0,
    })]);
    let ctx = TxContext {
        sender: 0,
        digest: 55,
        epoch: 0,
        epoch_timestamp_ms: 0,
        reference_gas_price: 1,
        gas_price: 0,
        gas_budget: 0,
        sponsor: None,
    };
    let written = execute_genesis_state_update(&vm, &ctx, vec![], &empty_program()).unwrap();
    assert_eq!(written.len(), 1);
    assert_eq!(written[0].version, 1);
    assert_eq!(written[0].previous_transaction, 55);
    assert_eq!(vm.runs.borrow()[0].0, ExecutionMode::Genesis);
}

#[test]
fn version_overflow_is_fatal() {
    let vm = ScriptedVm::new(vec![]);
    let objects = inputs(vec![input(coin(1, u64::MAX, 1_000), true)]);
    let r = run(&vm, objects, paid_gas(50), TransactionKind::ProgrammableTransaction(empty_program()), 1, &config(), false, &vec![]);
    assert_eq!(r.unwrap_err(), FatalError::VersionOverflow);
}

#[test]
fn deleted_object_moves_its_value() {
    // Coin 2 is merged into coin 3 and deleted.
    let vm = ScriptedVm::new(vec![Ok(ProgramEffects {
        written: vec![coin(3, 9, 100)],
        deleted: vec![2],
        computation_cost: 0,
    })]);
    let objects = inputs(vec![
        input(coin(1, 3, 1_000), true),
        input(coin(2, 4, 100), true),
        input(coin(3, 9, 0), true),
    ]);
    let out = run(&vm, objects, paid_gas(50), TransactionKind::ProgrammableTransaction(empty_program()), 1, &config(), true, &vec![])
        .unwrap();
    assert_eq!(out.effects.status, ExecutionStatus::Success);
    assert_eq!(out.effects.deleted, vec![2]);
    assert!(out.effects.changed_objects.iter().all(|o| o.id != 2));
    let merged = out.effects.changed_objects.iter().find(|o| o.id == 3).unwrap();
    assert_eq!(merged.balance, 100);
    // The deleted coin's rebate is refunded to the gas coin.
    let gas_coin = out.effects.changed_objects.iter().find(|o| o.id == 1).unwrap();
    assert_eq!(gas_coin.balance, 1_000 + 10 - 6);
    assert_eq!(out.effects.gas_used.storage_rebate, 30);
    assert_eq!(out.effects.gas_used.storage_cost, 20);
    assert_eq!(total(&out.effects.changed_objects) + 6, 1_100 + 30);
}

#[test]
fn shared_inputs_are_reported_at_their_versions() {
    let vm = ScriptedVm::new(vec![]);
    let mut shared = coin(4, 12, 0);
    shared.owner = Owner::Shared { initial_shared_version: 2 };
    let objects = inputs(vec![input(coin(1, 3, 1_000), true), input(shared, true)]);
    let out = run(&vm, objects, paid_gas(50), TransactionKind::ProgrammableTransaction(empty_program()), 1, &config(), false, &vec![])
        .unwrap();
    assert_eq!(out.effects.shared_objects.len(), 1);
    assert_eq!(out.effects.shared_objects[0].id, 4);
    assert_eq!(out.effects.shared_objects[0].version, 12);
    assert_eq!(out.effects.lamport_version, 13);
}

#[test]
fn coin_that_cannot_pay_storage_fails_for_gas() {
    let mut fresh = coin(9, 1, 0);
    fresh.storage_rebate = 100;
    let vm = ScriptedVm::new(vec![Ok(ProgramEffects { written: vec![fresh], deleted: vec![], computation_cost: 0 })]);
    let objects = inputs(vec![input(coin(1, 3, 50), true), input(coin(2, 4, 100), true)]);
    let out = run(&vm, objects, paid_gas(50), TransactionKind::ProgrammableTransaction(empty_program()), 1, &config(), true, &vec![])
        .unwrap();
    assert_eq!(
        out.effects.status,
        ExecutionStatus::Failure { error: ExecutionErrorKind::InsufficientGas, command: None }
    );
    assert_eq!(out.effects.gas_used.computation_cost, 4);
    assert_eq!(out.effects.changed_objects.len(), 2);
    assert!(out.effects.changed_objects.iter().all(|o| o.id != 9 && o.version == 5));
    let gas_coin = out.effects.changed_objects.iter().find(|o| o.id == 1).unwrap();
    assert_eq!(gas_coin.balance, 46);
}

#[test]
fn program_that_removes_the_gas_coin_fails() {
    let vm = ScriptedVm::new(vec![Ok(ProgramEffects { written: vec![], deleted: vec![1], computation_cost: 0 })]);
    let objects = inputs(vec![input(coin(1, 3, 1_000), true), input(coin(2, 4, 100), true)]);
    let out = run(&vm, objects, paid_gas(50), TransactionKind::ProgrammableTransaction(empty_program()), 1, &config(), true, &vec![])
        .unwrap();
    assert_eq!(
        out.effects.status,
        ExecutionStatus::Failure { error: ExecutionErrorKind::InvariantViolation, command: None }
    );
    assert!(out.effects.deleted.is_empty());
    let gas_coin = out.effects.changed_objects.iter().find(|o| o.id == 1).unwrap();
    assert_eq!(gas_coin.balance, 996);
}

#[test]
fn system_program_deleting_an_object_keeps_its_rebate() {
    // A system transaction deletes object 40, which carried a rebate of 10;
    // the rebate moves to the system state object.
    let vm = ScriptedVm::new(vec![Ok(ProgramEffects { written: vec![], deleted: vec![40], computation_cost: 0 })]);
    let mut doomed = coin(40, 2, 0);
    doomed.owner = Owner::Shared { initial_shared_version: 1 };
    let objects = inputs(vec![input(system_state_object(1_000), true), input(doomed, true)]);
    let kind = TransactionKind::ProgrammableSystemTransaction(empty_program());
    let out = run(&vm, objects, system_gas(), kind, 3, &config(), true, &vec![]).unwrap();
    assert_eq!(out.effects.status, ExecutionStatus::Success);
    assert_eq!(out.effects.deleted, vec![40]);
    let state = out.effects.changed_objects.iter().find(|o| o.id == 5).unwrap();
    assert_eq!(state.storage_rebate, 10);
}

#[test]
fn invalid_package_version_is_fatal() {
    let vm = ScriptedVm::new(vec![]);
    let package = SystemPackage { id: 2, version: 0, modules: vec![], dependencies: vec![] };
    let objects = inputs(vec![input(system_state_object(1_000), true)]);
    let r = run(&vm, objects, system_gas(), TransactionKind::ChangeEpoch(change_epoch(vec![package])), 7, &config(), false, &vec![]);
    assert_eq!(r.unwrap_err(), FatalError::InvalidPackageVersion);
}

#[test]
fn fresh_vm_is_used_for_packages_when_asked() {
    let mut c = config();
    c.fresh_vm_on_framework_upgrade = true;
    let vm = ScriptedVm::new(vec![]);
    let package = SystemPackage { id: 0xdee9, version: 1, modules: vec![vec![9]], dependencies: vec![] };
    let objects = inputs(vec![input(system_state_object(1_000), true)]);
    let out = run(&vm, objects, system_gas(), TransactionKind::ChangeEpoch(change_epoch(vec![package])), 7, &c, false, &vec![])
        .unwrap();
    assert_eq!(out.effects.status, ExecutionStatus::Success);
    // Only the advance ran on the caller's machine; the publish ran on the fresh one.
    assert_eq!(vm.runs.borrow().len(), 1);
}

#[test]
fn failure_status_carries_kind_and_command() {
    let vm = ScriptedVm::new(vec![Err(ExecutionError { kind: ExecutionErrorKind::MoveAbort { code: 9 }, command: Some(4) })]);
    let objects = inputs(vec![input(coin(1, 3, 1_000), true)]);
    let out = run(&vm, objects, paid_gas(50), TransactionKind::ProgrammableTransaction(empty_program()), 1, &config(), false, &vec![])
        .unwrap();
    let err = out.result.unwrap_err();
    assert_eq!(err.kind, ExecutionErrorKind::MoveAbort { code: 9 });
    assert_eq!(err.command, Some(4));
    assert_eq!(
        out.effects.status,
        ExecutionStatus::Failure { error: ExecutionErrorKind::MoveAbort { code: 9 }, command: Some(4) }
    );
}

fn system_ctx() -> TxContext {
    TxContext {
        sender: 0,
        digest: DIGEST,
        epoch: 7,
        epoch_timestamp_ms: 0,
        reference_gas_price: 1,
        gas_price: 0,
        gas_budget: 0,
        sponsor: None,
    }
}

#[test]
fn end_of_epoch_calls_are_collected_in_order() {
    let txns = vec![
        EndOfEpochTransactionKind::RandomnessStateCreate,
        EndOfEpochTransactionKind::BridgeCommitteeInit(4),
        EndOfEpochTransactionKind::AccumulatorRootCreate,
        EndOfEpochTransactionKind::ChangeEpoch(change_epoch(vec![])),
    ];
    let b = prepare_end_of_epoch(&txns, &config()).unwrap();
    let functions: Vec<SystemFunction> = b
        .commands
        .iter()
        .map(|c| match c {
            Command::MoveCall { function, .. } => *function,
            other => panic!("expected a call, got {:?}", other),
        })
        .collect();
    assert_eq!(
        functions,
        vec![
            SystemFunction::RandomnessStateCreate,
            SystemFunction::ValidatorVotingPowers,
            SystemFunction::BridgeInitCommittee,
            SystemFunction::AccumulatorRootCreate,
        ]
    );
}

#[test]
fn fallback_after_success_changes_nothing() {
    let vm = ScriptedVm::new(vec![]);
    let mut store = TemporaryStore::new(vec![input(system_state_object(1_000), true)], DIGEST, 7).unwrap();
    let mut gas = GasCharger::new_unmetered();
    let params = advance_epoch_params(&change_epoch(vec![]), &config());
    assert!(advance_epoch_fallback(Ok(()), &params, &mut store, &vm, &mut gas, &system_ctx(), &config()).is_ok());
    assert!(store.safe_mode_advance.is_none());
    assert_eq!(store.written[0].balance, 1_000);
    assert!(vm.runs.borrow().is_empty());
}

#[test]
fn direct_safe_mode_without_system_state_is_fatal() {
    let mut c = config();
    c.advance_epoch_start_time_in_safe_mode = true;
    let vm = ScriptedVm::new(vec![]);
    let mut store = TemporaryStore::new(vec![input(coin(1, 3, 10), true)], DIGEST, 7).unwrap();
    let mut gas = GasCharger::new_unmetered();
    let params = advance_epoch_params(&change_epoch(vec![]), &c);
    let failed = Err(ExecutionError { kind: ExecutionErrorKind::MoveAbort { code: 1 }, command: None });
    let r = advance_epoch_fallback(failed, &params, &mut store, &vm, &mut gas, &system_ctx(), &c);
    assert_eq!(r.unwrap_err(), FatalError::SafeModeAdvanceFailed);
}

#[test]
fn upgrades_are_written_one_version_below_in_order() {
    let vm = ScriptedVm::new(vec![]);
    let mut store = TemporaryStore::new(vec![input(system_state_object(1_000), true)], DIGEST, 7).unwrap();
    let mut gas = GasCharger::new_unmetered();
    let packages = vec![
        SystemPackage { id: 2, version: 6, modules: vec![vec![1]], dependencies: vec![] },
        SystemPackage { id: 3, version: 9, modules: vec![vec![1, 2]], dependencies: vec![2] },
    ];
    process_system_packages(&packages, &mut store, &vm, &mut gas, &system_ctx()).unwrap();
    assert_eq!(store.upgraded_packages, vec![2, 3]);
    let two = store.written.iter().find(|o| o.id == 2).unwrap();
    let three = store.written.iter().find(|o| o.id == 3).unwrap();
    assert_eq!((two.version, three.version), (5, 8));
    assert!(two.is_package && three.is_package);
    assert!(vm.runs.borrow().is_empty());
}
