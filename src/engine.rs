//! The execution orchestrator: dispatch over transaction kinds, limit and
//! conservation checks, the epoch transition with its safe-mode fallback, and
//! the assembly of effects.
use vstd::prelude::*;
use crate::config::ProtocolConfig;
use crate::encoding::MAX_SEQUENCE_LENGTH;
use crate::effects::{ExecutionStatus, GasCostSummary, TransactionEffects};
use crate::error::{same_kind, ExecutionError, ExecutionErrorKind, FatalError, ObjectId, TransactionDigest};
use crate::gas::GasCharger;
use crate::limits::{
    check_meter_limit, check_written_objects_limit, effects_size_outcome, written_size_outcome,
};
use crate::program::{accepts_object, Command, ProgramBuilder, ProgrammableTransaction, SystemFunction};
use crate::store::{
    burned_of, contains_id, finalized, lemma_finalized_sums, lemma_sums_nonneg, max_version, minted_of,
    distinct_input_ids, mutable_objects, safe_mode_possible, sum_balances, sum_rebates, sum_sizes, InputObject, ObjectRecord, ProgramEffects,
    TemporaryStore, EFFECTS_BASE_SIZE_BYTES, EFFECTS_PER_OBJECT_SIZE_BYTES, MAX_OBJECTS,
};
use crate::system_tx::{
    authenticator_state_update_pt, consensus_commit_prologue_pt, construct_advance_epoch_pt,
    construct_advance_epoch_safe_mode_pt, randomness_state_update_pt,
    setup_accumulator_root_create, setup_authenticator_state_create,
    setup_authenticator_state_expire, setup_bridge_committee_update, setup_bridge_create,
    setup_coin_deny_list_state_create, setup_randomness_state_create,
    setup_store_execution_time_estimates, sui_system_mut, AdvanceEpochParams,
    OBJECT_START_VERSION,
};
use crate::transaction::{
    end_of_epoch_well_formed, AuthenticatorStateUpdate, ChangeEpoch, EndOfEpochTransactionKind,
    GenesisObject, Owner, RandomnessStateUpdate, SystemPackage, TransactionKind,
};

verus! {

/// What a kind of execution permits and skips.
#[derive(Debug, Clone, Copy, PartialEq, Eq, Structural)]
pub enum ExecutionMode {
    Normal,
    Genesis,
    System,
    /// Inspection of a transaction by a developer: anything may be called,
    /// and conservation is not checked.
    DevInspect,
}

impl ExecutionMode {
    pub open spec fn spec_allow_arbitrary_function_calls(self) -> bool {
        self is DevInspect
    }

    pub open spec fn spec_skip_conservation_checks(self) -> bool {
        self is DevInspect
    }

    pub fn allow_arbitrary_function_calls(self) -> (r: bool)
        ensures
            r == self.spec_allow_arbitrary_function_calls(),
    {
        matches!(self, ExecutionMode::DevInspect)
    }

    pub fn skip_conservation_checks(self) -> (r: bool)
        ensures
            r == self.spec_skip_conservation_checks(),
    {
        matches!(self, ExecutionMode::DevInspect)
    }
}

/// Sequencing information of the transaction being executed.
#[derive(Debug, Clone, Copy, PartialEq, Eq, Structural)]
pub struct TxContext {
    pub sender: u64,
    pub digest: TransactionDigest,
    pub epoch: u64,
    pub epoch_timestamp_ms: u64,
    pub reference_gas_price: u64,
    pub gas_price: u64,
    pub gas_budget: u64,
    pub sponsor: Option<u64>,
}

/// The virtual machine, as execution sees it: it runs a program against the
/// buffered objects and says what to write and delete, or why it failed.
pub trait ProgramExecutor: Sized {
    fn execute_program(
        &self,
        mode: ExecutionMode,
        store: &TemporaryStore,
        ctx: &TxContext,
        program: &ProgrammableTransaction,
    ) -> Result<ProgramEffects, ExecutionError>;

    /// A new instance with the natives of the given protocol, if one can be
    /// made.
    fn fresh_for_framework_upgrade(&self, protocol_config: &ProtocolConfig) -> Option<Self>;
}

/// Runs a program: the computation it consumed is charged, then its writes
/// are applied. A failed run or charge applies nothing.
pub fn run_program<V: ProgramExecutor>(
    vm: &V,
    mode: ExecutionMode,
    store: &mut TemporaryStore,
    gas: &mut GasCharger,
    ctx: &TxContext,
    program: &ProgrammableTransaction,
) -> (r: Result<(), ExecutionError>)
    requires
        old(store).wf(),
        old(gas).wf(),
    ensures
        final(store).wf(),
        final(store).same_frame(old(store)),
        final(store).upgraded_packages@ == old(store).upgraded_packages@,
        final(store).safe_mode_advance == old(store).safe_mode_advance,
        final(gas).wf(),
        final(gas).gas_coin == old(gas).gas_coin,
{
    let effects = match vm.execute_program(mode, store, ctx, program) {
        Ok(e) => e,
        Err(e) => {
            return Err(e);
        },
    };
    match gas.charge_computation(effects.computation_cost) {
        Ok(()) => {},
        Err(e) => {
            return Err(e);
        },
    }
    store.apply_effects(effects)
}

/// What the conservation checks verify: always the rebates, and the full
/// native-asset balance when expensive checks are on.
pub open spec fn conserved_as_checked(
    store: TemporaryStore,
    summary: GasCostSummary,
    enable_expensive_checks: bool,
    adjustment: Option<(u128, u128)>,
) -> bool {
    &&& store.rebates_conserved(summary)
    &&& enable_expensive_checks ==> store.value_conserved(summary, adjustment)
}

fn check_conservation(
    store: &TemporaryStore,
    summary: &GasCostSummary,
    enable_expensive_checks: bool,
    adjustment: Option<(u128, u128)>,
) -> (r: Result<(), ExecutionError>)
    requires
        store.wf(),
    ensures
        r is Ok <==> conserved_as_checked(*store, *summary, enable_expensive_checks, adjustment),
        r is Err ==> r->Err_0.kind == ExecutionErrorKind::InvariantViolation,
{
    match store.check_sui_conserved(summary) {
        Ok(()) => {
            if enable_expensive_checks {
                store.check_sui_conserved_expensive(summary, adjustment)
            } else {
                Ok(())
            }
        },
        Err(e) => Err(e),
    }
}

/// Verifies that the transaction neither created nor destroyed the native
/// asset. On a violation every write is discarded, gas is charged again and
/// the check repeated once: if it then holds, the transaction fails with the
/// violation; if not, gas charging itself is broken and the violation is
/// fatal. Genesis and inspection are exempt.
pub fn run_conservation_checks(
    store: &mut TemporaryStore,
    gas: &mut GasCharger,
    mode: ExecutionMode,
    enable_expensive_checks: bool,
    cost_summary: &GasCostSummary,
    is_genesis_tx: bool,
    adjustment: Option<(u128, u128)>,
) -> (r: Result<Result<(), ExecutionError>, FatalError>)
    requires
        old(store).wf(),
        old(gas).wf(),
    ensures
        final(store).wf(),
        final(store).same_frame(old(store)),
        final(gas).wf(),
        final(gas).gas_coin == old(gas).gas_coin,
        final(gas).computation_cost == old(gas).computation_cost,
        r is Err ==> r->Err_0 == FatalError::ConservationViolated,
        r is Ok ==> !is_genesis_tx && !mode.spec_skip_conservation_checks() ==> conserved_as_checked(
            *final(store),
            *cost_summary,
            enable_expensive_checks,
            adjustment,
        ),
        r == Ok::<Result<(), ExecutionError>, FatalError>(Ok(())) <==> is_genesis_tx
            || mode.spec_skip_conservation_checks() || conserved_as_checked(
            *old(store),
            *cost_summary,
            enable_expensive_checks,
            adjustment,
        ),
        r is Ok && r->Ok_0 is Ok ==> *final(store) == *old(store),
        r is Ok && r->Ok_0 is Err ==> r->Ok_0->Err_0.kind == ExecutionErrorKind::InvariantViolation,
        r is Ok && r->Ok_0 is Err && old(gas).gas_coin is Some ==> final(store).writes_match_changeable(),
{
    if is_genesis_tx || mode.skip_conservation_checks() {
        return Ok(Ok(()));
    }
    match check_conservation(store, cost_summary, enable_expensive_checks, adjustment) {
        Ok(()) => Ok(Ok(())),
        Err(conservation_err) => {
            let mut result: Result<(), ExecutionError> = Err(conservation_err);
            gas.reset(store);
            let _ = gas.charge_gas(store, &mut result);
            match check_conservation(store, cost_summary, enable_expensive_checks, adjustment) {
                Ok(()) => Ok(result),
                Err(_) => Err(FatalError::ConservationViolated),
            }
        },
    }
}

/// The parameters of an epoch advance, from the change-epoch data and the
/// protocol's rates.
pub open spec fn spec_advance_epoch_params(change_epoch: ChangeEpoch, protocol_config: ProtocolConfig) -> AdvanceEpochParams {
    AdvanceEpochParams {
        epoch: change_epoch.epoch,
        next_protocol_version: change_epoch.protocol_version,
        storage_charge: change_epoch.storage_charge,
        computation_charge: change_epoch.computation_charge,
        storage_rebate: change_epoch.storage_rebate,
        non_refundable_storage_fee: change_epoch.non_refundable_storage_fee,
        storage_fund_reinvest_rate: protocol_config.storage_fund_reinvest_rate,
        reward_slashing_rate: protocol_config.reward_slashing_rate,
        epoch_start_timestamp_ms: change_epoch.epoch_start_timestamp_ms,
    }
}

pub fn advance_epoch_params(change_epoch: &ChangeEpoch, protocol_config: &ProtocolConfig) -> (r: AdvanceEpochParams)
    ensures
        r == spec_advance_epoch_params(*change_epoch, *protocol_config),
{
    AdvanceEpochParams {
        epoch: change_epoch.epoch,
        next_protocol_version: change_epoch.protocol_version,
        storage_charge: change_epoch.storage_charge,
        computation_charge: change_epoch.computation_charge,
        storage_rebate: change_epoch.storage_rebate,
        non_refundable_storage_fee: change_epoch.non_refundable_storage_fee,
        storage_fund_reinvest_rate: protocol_config.storage_fund_reinvest_rate,
        reward_slashing_rate: protocol_config.reward_slashing_rate,
        epoch_start_timestamp_ms: change_epoch.epoch_start_timestamp_ms,
    }
}

/// The record of a system package replaced in place: written one version
/// below its target, so that effects show exactly the target.
pub open spec fn upgraded_package_record(package: SystemPackage, size: u64, digest: TransactionDigest) -> ObjectRecord {
    ObjectRecord {
        id: package.id,
        version: (package.version - 1) as u64,
        owner: Owner::Immutable,
        balance: 0,
        storage_rebate: 0,
        previous_transaction: digest,
        is_package: true,
        size,
    }
}

fn modules_size(modules: &Vec<Vec<u8>>) -> (r: u64) {
    let mut total: u64 = 0;
    let mut i: usize = 0;
    while i < modules.len()
        invariant
            i <= modules@.len(),
        decreases modules@.len() - i,
    {
        let n = modules[i].len() as u64;
        total = if total > u64::MAX - n { u64::MAX } else { total + n };
        i = i + 1;
    }
    total
}

/// Replaces a system package in place with the record one version below
/// its target.
pub fn upgrade_package(store: &mut TemporaryStore, package: &SystemPackage, digest: TransactionDigest) -> (r: Result<(), FatalError>)
    requires
        old(store).wf(),
    ensures
        final(store).wf(),
        final(store).same_frame(old(store)),
        final(store).deleted@ == old(store).deleted@,
        final(store).safe_mode_advance == old(store).safe_mode_advance,
        package.version == 0 ==> r == Err::<(), FatalError>(FatalError::InvalidPackageVersion),
        r is Err ==> r->Err_0 == FatalError::InvalidPackageVersion || r->Err_0 == FatalError::SystemPackageUpgradeFailed,
        r is Err && r->Err_0 == FatalError::InvalidPackageVersion ==> package.version == 0,
        package.version != 0 && old(store).written@.len() < MAX_OBJECTS && old(store).upgraded_packages@.len() < MAX_OBJECTS
            ==> r is Ok,
        r is Err ==> final(store).upgraded_packages@ == old(store).upgraded_packages@,
        r is Ok ==> final(store).upgraded_packages@ == old(store).upgraded_packages@.push(package.id),
        r is Ok ==> exists|j: int| 0 <= j < final(store).written@.len()
            && #[trigger] final(store).written@[j] == upgraded_package_record(
                *package,
                final(store).written@[j].size,
                digest,
            ),
        final(store).written@.len() <= old(store).written@.len() + 1,
        old(store).written@.len() <= final(store).written@.len(),
        forall|j: int|
            0 <= j < old(store).written@.len() && (#[trigger] old(store).written@[j]).id != package.id
                ==> final(store).written@[j] == old(store).written@[j],
{
    if package.version == 0 {
        return Err(FatalError::InvalidPackageVersion);
    }
    let size = modules_size(&package.modules);
    let record = ObjectRecord {
        id: package.id,
        version: package.version - 1,
        owner: Owner::Immutable,
        balance: 0,
        storage_rebate: 0,
        previous_transaction: digest,
        is_package: true,
        size,
    };
    match store.upgrade_system_package(record) {
        Ok(()) => {
            assert(record == upgraded_package_record(*package, size, digest));
            Ok(())
        },
        Err(_) => Err(FatalError::SystemPackageUpgradeFailed),
    }
}

/// The ways installing system packages can fail.
pub open spec fn package_fatal(e: FatalError) -> bool {
    e == FatalError::SystemPackagePublishFailed || e == FatalError::InvalidPackageVersion || e
        == FatalError::SystemPackageUpgradeFailed
}

/// The ways an epoch change can fail.
pub open spec fn epoch_change_fatal(e: FatalError) -> bool {
    package_fatal(e) || e == FatalError::SafeModeAdvanceFailed || e == FatalError::VmCreationFailed
}

/// The identifiers of the packages replaced in place, in list order.
pub open spec fn upgraded_ids(packages: Seq<SystemPackage>) -> Seq<ObjectId>
    decreases packages.len(),
{
    if packages.len() == 0 {
        Seq::empty()
    } else {
        let rest = upgraded_ids(packages.drop_last());
        if packages.last().version != OBJECT_START_VERSION {
            rest.push(packages.last().id)
        } else {
            rest
        }
    }
}

/// Every package is replaced in place (none is at the initial version, so
/// no program runs) and has an earlier version.
pub open spec fn only_upgrades(packages: Seq<SystemPackage>) -> bool {
    forall|k: int|
        0 <= k < packages.len() ==> (#[trigger] packages[k]).version != OBJECT_START_VERSION
            && packages[k].version != 0
}

pub open spec fn distinct_package_ids(packages: Seq<SystemPackage>) -> bool {
    forall|a: int, b: int| 0 <= a < b < packages.len() ==> (#[trigger] packages[a]).id != (#[trigger] packages[b]).id
}

/// The program that publishes a package.
pub fn publish_program(package: &SystemPackage) -> (r: ProgrammableTransaction)
    ensures
        r.inputs@.len() == 0,
        r.commands@.len() == 1,
        r.commands@[0] is Publish,
        r.commands@[0]->Publish_modules@.len() == package.modules@.len(),
        r.commands@[0]->Publish_dependencies@ == package.dependencies@,
{
    let mut builder = ProgramBuilder::new();
    builder.command(
        Command::Publish { modules: package.modules.clone(), dependencies: package.dependencies.clone() },
    );
    builder.finish()
}

/// Installs the system packages of an epoch change, in list order: a
/// package at the initial version is published by a program, which must
/// succeed; any other replaces its previous version in place, written one
/// version below its target.
pub fn process_system_packages<V: ProgramExecutor>(
    packages: &Vec<SystemPackage>,
    store: &mut TemporaryStore,
    vm: &V,
    gas: &mut GasCharger,
    ctx: &TxContext,
) -> (r: Result<(), FatalError>)
    requires
        old(store).wf(),
        old(gas).wf(),
    ensures
        final(store).wf(),
        final(store).same_frame(old(store)),
        final(store).safe_mode_advance == old(store).safe_mode_advance,
        final(gas).wf(),
        final(gas).gas_coin == old(gas).gas_coin,
        r is Err ==> package_fatal(r->Err_0),
        r is Err && r->Err_0 == FatalError::InvalidPackageVersion ==> exists|k: int|
            0 <= k < packages@.len() && (#[trigger] packages@[k]).version == 0,
        r is Err && r->Err_0 == FatalError::SystemPackagePublishFailed ==> exists|k: int|
            0 <= k < packages@.len() && (#[trigger] packages@[k]).version == OBJECT_START_VERSION,
        r is Ok ==> final(store).upgraded_packages@ == old(store).upgraded_packages@ + upgraded_ids(packages@),
        r is Ok ==> forall|k: int|
            0 <= k < packages@.len() && (#[trigger] packages@[k]).version != OBJECT_START_VERSION
                ==> final(store).upgraded_packages@.contains(packages@[k].id),
        only_upgrades(packages@) && old(store).written@.len() + packages@.len() <= MAX_OBJECTS
            && old(store).upgraded_packages@.len() + packages@.len() <= MAX_OBJECTS ==> r is Ok,
        r is Ok && only_upgrades(packages@) && distinct_package_ids(packages@) ==> forall|k: int|
            0 <= k < packages@.len() ==> exists|j: int|
                0 <= j < final(store).written@.len() && #[trigger] final(store).written@[j]
                    == upgraded_package_record(#[trigger] packages@[k], final(store).written@[j].size, ctx.digest),
{
    let ghost upgrades_only = only_upgrades(packages@);
    let ghost distinct = distinct_package_ids(packages@);
    let mut i: usize = 0;
    while i < packages.len()
        invariant
            store.wf(),
            store.same_frame(old(store)),
            store.safe_mode_advance == old(store).safe_mode_advance,
            gas.wf(),
            gas.gas_coin == old(gas).gas_coin,
            i <= packages@.len(),
            upgrades_only == only_upgrades(packages@),
            distinct == distinct_package_ids(packages@),
            store.upgraded_packages@ == old(store).upgraded_packages@ + upgraded_ids(packages@.take(i as int)),
            forall|k: int|
                0 <= k < i && (#[trigger] packages@[k]).version != OBJECT_START_VERSION
                    ==> store.upgraded_packages@.contains(packages@[k].id),
            upgrades_only ==> store.written@.len() <= old(store).written@.len() + i,
            upgrades_only ==> store.upgraded_packages@.len() == old(store).upgraded_packages@.len() + i,
            upgrades_only && distinct ==> forall|k: int|
                0 <= k < i ==> exists|j: int|
                    0 <= j < store.written@.len() && #[trigger] store.written@[j]
                        == upgraded_package_record(#[trigger] packages@[k], store.written@[j].size, ctx.digest),
        decreases packages@.len() - i,
    {
        let ghost upgraded_before = store.upgraded_packages@;
        let ghost written_before = store.written@;
        let package = &packages[i];
        proof {
            assert(packages@.take(i + 1).drop_last() =~= packages@.take(i as int));
            assert(packages@.take(i + 1).last() == packages@[i as int]);
        }
        if package.version == OBJECT_START_VERSION {
            let publish = publish_program(package);
            match run_program(vm, ExecutionMode::System, store, gas, ctx, &publish) {
                Ok(()) => {},
                Err(_) => {
                    return Err(FatalError::SystemPackagePublishFailed);
                },
            }
            assert(store.upgraded_packages@ =~= old(store).upgraded_packages@ + upgraded_ids(packages@.take(i + 1)));
        } else {
            match upgrade_package(store, package, ctx.digest) {
                Ok(()) => {},
                Err(e) => {
                    return Err(e);
                },
            }
            assert(store.upgraded_packages@[upgraded_before.len() as int] == package.id);
            assert(store.upgraded_packages@.contains(package.id));
            assert(store.upgraded_packages@ =~= old(store).upgraded_packages@ + upgraded_ids(packages@.take(i + 1)));
            proof {
                if upgrades_only && distinct {
                    assert forall|k: int| 0 <= k < i + 1 implies exists|j: int|
                        0 <= j < store.written@.len() && #[trigger] store.written@[j]
                            == upgraded_package_record(#[trigger] packages@[k], store.written@[j].size, ctx.digest) by {
                        if k < i {
                            let j = choose|j: int|
                                0 <= j < written_before.len() && #[trigger] written_before[j]
                                    == upgraded_package_record(packages@[k], written_before[j].size, ctx.digest);
                            assert(packages@[k].id != packages@[i as int].id);
                            assert(store.written@[j] == written_before[j]);
                        }
                    }
                }
            }
        }
        proof {
            assert forall|k: int|
                0 <= k < i + 1 && (#[trigger] packages@[k]).version != OBJECT_START_VERSION
                    implies store.upgraded_packages@.contains(packages@[k].id) by {
                if k < i {
                    let j = choose|j: int| 0 <= j < upgraded_before.len() && #[trigger] upgraded_before[j] == packages@[k].id;
                    assert(store.upgraded_packages@[j] == packages@[k].id);
                }
            }
        }
        i = i + 1;
    }
    assert(packages@.take(packages@.len() as int) =~= packages@);
    Ok(())
}

/// What follows the normal epoch-advance program, given its result. After a
/// success nothing changes. After a failure every write is discarded and the
/// epoch is advanced in safe mode: directly where the protocol sets the start
/// time in safe mode (which succeeds wherever the system state is a
/// changeable input that can take the change), else by the safe-mode
/// program, whose failure is fatal.
pub fn advance_epoch_fallback<V: ProgramExecutor>(
    result: Result<(), ExecutionError>,
    params: &AdvanceEpochParams,
    store: &mut TemporaryStore,
    vm: &V,
    gas: &mut GasCharger,
    ctx: &TxContext,
    protocol_config: &ProtocolConfig,
) -> (r: Result<(), FatalError>)
    requires
        old(store).wf(),
        old(gas).wf(),
    ensures
        final(store).wf(),
        final(store).same_frame(old(store)),
        final(gas).wf(),
        final(gas).gas_coin == old(gas).gas_coin,
        result is Ok ==> r is Ok && *final(store) == *old(store) && *final(gas) == *old(gas),
        r is Err ==> r->Err_0 == FatalError::SafeModeAdvanceFailed,
        result is Err ==> final(store).upgraded_packages@.len() == 0,
        result is Err && protocol_config.advance_epoch_start_time_in_safe_mode ==> {
            &&& safe_mode_possible(mutable_objects(old(store).inputs@), *params) ==> r is Ok
            &&& r is Ok ==> final(store).safe_mode_advance == Some(*params)
            &&& r is Ok ==> final(store).output_balances() == sum_balances(mutable_objects(old(store).inputs@))
                + params.storage_charge + params.computation_charge - params.storage_rebate
            &&& r is Ok ==> final(store).output_rebates() == sum_rebates(mutable_objects(old(store).inputs@))
        },
        result is Err && !protocol_config.advance_epoch_start_time_in_safe_mode ==> final(store).safe_mode_advance
            is None,
{
    if result.is_ok() {
        return Ok(());
    }
    store.drop_writes();
    if protocol_config.advance_epoch_start_time_in_safe_mode {
        store.advance_epoch_safe_mode(params)
    } else {
        let safe_mode_pt = match construct_advance_epoch_safe_mode_pt(params, protocol_config) {
            Ok(pt) => pt,
            Err(_) => {
                return Err(FatalError::SafeModeAdvanceFailed);
            },
        };
        match run_program(vm, ExecutionMode::System, store, gas, ctx, &safe_mode_pt) {
            Ok(()) => Ok(()),
            Err(_) => Err(FatalError::SafeModeAdvanceFailed),
        }
    }
}

/// Advances the epoch. The normal program runs first; what follows its
/// result is `advance_epoch_fallback`, so that a failing program never fails
/// the transaction. The system packages are then installed, with a fresh
/// virtual machine where the protocol asks for one. The only
/// transaction-level error is a normal program that cannot be assembled on
/// what `builder` already holds.
pub fn advance_epoch<V: ProgramExecutor>(
    builder: ProgramBuilder,
    change_epoch: &ChangeEpoch,
    store: &mut TemporaryStore,
    vm: &V,
    gas: &mut GasCharger,
    ctx: &TxContext,
    protocol_config: &ProtocolConfig,
) -> (r: Result<Result<(), ExecutionError>, FatalError>)
    requires
        old(store).wf(),
        old(gas).wf(),
    ensures
        final(store).wf(),
        final(store).same_frame(old(store)),
        final(gas).wf(),
        final(gas).gas_coin == old(gas).gas_coin,
        r is Ok && r->Ok_0 is Err <==> !accepts_object(builder.inputs@, sui_system_mut()),
        r is Ok && r->Ok_0 is Err ==> *final(store) == *old(store),
        r is Ok && r->Ok_0 is Err ==> r->Ok_0->Err_0.kind == ExecutionErrorKind::InvariantViolation,
        r is Err ==> epoch_change_fatal(r->Err_0),
        r is Err && r->Err_0 == FatalError::VmCreationFailed ==> protocol_config.fresh_vm_on_framework_upgrade,
        r is Ok && r->Ok_0 is Ok ==> forall|k: int|
            0 <= k < change_epoch.system_packages@.len() && (#[trigger] change_epoch.system_packages@[k]).version
                != OBJECT_START_VERSION ==> final(store).upgraded_packages@.contains(change_epoch.system_packages@[k].id),
        r is Ok && old(store).safe_mode_advance is None && final(store).safe_mode_advance is Some
            ==> protocol_config.advance_epoch_start_time_in_safe_mode && final(store).safe_mode_advance == Some(
            spec_advance_epoch_params(*change_epoch, *protocol_config),
        ),
        r is Err && r->Err_0 == FatalError::SafeModeAdvanceFailed && protocol_config.advance_epoch_start_time_in_safe_mode
            ==> !safe_mode_possible(
            mutable_objects(old(store).inputs@),
            spec_advance_epoch_params(*change_epoch, *protocol_config),
        ),
        r is Err && r->Err_0 == FatalError::InvalidPackageVersion ==> exists|k: int|
            0 <= k < change_epoch.system_packages@.len() && (#[trigger] change_epoch.system_packages@[k]).version == 0,
        r is Err && r->Err_0 == FatalError::SystemPackagePublishFailed ==> exists|k: int|
            0 <= k < change_epoch.system_packages@.len() && (#[trigger] change_epoch.system_packages@[k]).version
                == OBJECT_START_VERSION,
{
    let params = advance_epoch_params(change_epoch, protocol_config);
    let advance_epoch_pt = match construct_advance_epoch_pt(builder, &params) {
        Ok(pt) => pt,
        Err(e) => {
            return Ok(Err(e));
        },
    };
    let result = run_program(vm, ExecutionMode::System, store, gas, ctx, &advance_epoch_pt);
    match advance_epoch_fallback(result, &params, store, vm, gas, ctx, protocol_config) {
        Ok(()) => {},
        Err(e) => {
            return Err(e);
        },
    }
    let installed = if protocol_config.fresh_vm_on_framework_upgrade {
        match vm.fresh_for_framework_upgrade(protocol_config) {
            Some(new_vm) => process_system_packages(&change_epoch.system_packages, store, &new_vm, gas, ctx),
            None => {
                return Err(FatalError::VmCreationFailed);
            },
        }
    } else {
        process_system_packages(&change_epoch.system_packages, store, vm, gas, ctx)
    };
    match installed {
        Ok(()) => Ok(Ok(())),
        Err(e) => Err(e),
    }
}

/// The record genesis writes for an object: as given, at the start version,
/// with no storage rebate.
pub open spec fn genesis_record(o: GenesisObject, digest: TransactionDigest) -> ObjectRecord {
    ObjectRecord {
        id: o.id,
        version: OBJECT_START_VERSION,
        owner: o.owner,
        balance: o.balance,
        storage_rebate: 0,
        previous_transaction: digest,
        is_package: o.is_package,
        size: o.size,
    }
}

pub open spec fn distinct_ids(objects: Seq<GenesisObject>) -> bool {
    forall|i: int, j: int| 0 <= i < j < objects.len() ==> (#[trigger] objects[i]).id != (#[trigger] objects[j]).id
}

pub open spec fn genesis_records(objects: Seq<GenesisObject>, digest: TransactionDigest) -> Seq<ObjectRecord> {
    objects.map_values(|o: GenesisObject| genesis_record(o, digest))
}

/// A genesis with these objects crosses no hard size limit of an unmetered
/// transaction.
pub open spec fn genesis_within_limits(
    objects: Seq<GenesisObject>,
    digest: TransactionDigest,
    protocol_config: ProtocolConfig,
) -> bool {
    let size = sum_sizes(genesis_records(objects, digest));
    &&& effects_size_outcome(
        false,
        (EFFECTS_BASE_SIZE_BYTES + objects.len() * EFFECTS_PER_OBJECT_SIZE_BYTES) as u64,
        protocol_config.max_serialized_tx_effects_size_bytes,
        protocol_config.max_serialized_tx_effects_size_bytes_system_tx,
    ) is None
    &&& written_size_outcome(
        false,
        (if size > u64::MAX { u64::MAX as int } else { size }) as u64,
        protocol_config.max_size_written_objects,
        protocol_config.max_size_written_objects_system_tx,
    ) is None
}

/// Writes the genesis objects directly, without running a program.
pub fn create_genesis_objects(store: &mut TemporaryStore, objects: &Vec<GenesisObject>, digest: TransactionDigest) -> (r:
    Result<(), ExecutionError>)
    requires
        old(store).wf(),
    ensures
        final(store).wf(),
        final(store).same_frame(old(store)),
        final(store).deleted@ == old(store).deleted@,
        final(store).upgraded_packages@ == old(store).upgraded_packages@,
        old(store).written@.len() == 0 && distinct_ids(objects@) && objects@.len() <= MAX_OBJECTS ==> r is Ok
            && final(store).written@ == genesis_records(objects@, digest),
{
    let ghost fresh = old(store).written@.len() == 0 && distinct_ids(objects@) && objects@.len() <= MAX_OBJECTS;
    let mut i: usize = 0;
    while i < objects.len()
        invariant
            store.wf(),
            store.same_frame(old(store)),
            store.deleted@ == old(store).deleted@,
            store.upgraded_packages@ == old(store).upgraded_packages@,
            i <= objects@.len(),
            fresh == (old(store).written@.len() == 0 && distinct_ids(objects@) && objects@.len() <= MAX_OBJECTS),
            fresh ==> store.written@ == genesis_records(objects@.take(i as int), digest),
        decreases objects@.len() - i,
    {
        let o = objects[i];
        let record = ObjectRecord {
            id: o.id,
            version: OBJECT_START_VERSION,
            owner: o.owner,
            balance: o.balance,
            storage_rebate: 0,
            previous_transaction: digest,
            is_package: o.is_package,
            size: o.size,
        };
        proof {
            if fresh {
                assert(store.written@.len() == i);
                assert forall|j: int| 0 <= j < store.written@.len() implies (#[trigger] store.written@[j]).id != record.id by {
                    assert(store.written@[j] == genesis_record(objects@.take(i as int)[j], digest));
                    assert(objects@.take(i as int)[j] == objects@[j]);
                }
            }
        }
        match store.create_object(record) {
            Ok(()) => {},
            Err(e) => {
                return Err(e);
            },
        }
        proof {
            if fresh {
                assert(genesis_records(objects@.take(i + 1), digest) =~= genesis_records(objects@.take(i as int), digest).push(record));
            }
        }
        i = i + 1;
    }
    proof {
        assert(objects@.take(objects@.len() as int) =~= objects@);
    }
    Ok(())
}

/// Whether a protocol feature that an end-of-epoch action needs is on.
pub open spec fn end_of_epoch_action_enabled(action: EndOfEpochTransactionKind, c: ProtocolConfig) -> bool {
    match action {
        EndOfEpochTransactionKind::ChangeEpoch(_) => true,
        EndOfEpochTransactionKind::AuthenticatorStateCreate => c.enable_jwk_consensus_updates,
        EndOfEpochTransactionKind::AuthenticatorStateExpire(_) => c.enable_jwk_consensus_updates,
        EndOfEpochTransactionKind::RandomnessStateCreate => c.random_beacon,
        EndOfEpochTransactionKind::DenyListStateCreate => c.enable_coin_deny_list_v1,
        EndOfEpochTransactionKind::BridgeStateCreate(_) => c.enable_bridge,
        EndOfEpochTransactionKind::BridgeCommitteeInit(_) => c.enable_bridge
            && c.should_try_to_finalize_bridge_committee,
        EndOfEpochTransactionKind::StoreExecutionTimeObservations(_) => c.execution_time_estimate_congestion_control,
        EndOfEpochTransactionKind::AccumulatorRootCreate => c.enable_accumulators,
    }
}

/// The ways an end-of-epoch transaction can fail.
pub open spec fn end_of_epoch_fatal(e: FatalError) -> bool {
    epoch_change_fatal(e) || e == FatalError::MalformedEndOfEpoch || e == FatalError::FeatureDisabled
        || e == FatalError::ProgramConstructionFailed
}

/// The function a command calls, if it is a call.
pub open spec fn command_function(c: Command) -> Option<SystemFunction> {
    match c {
        Command::MoveCall { function, .. } => Some(function),
        _ => None,
    }
}

/// The functions that commands call, in order.
pub open spec fn calls_of(cmds: Seq<Command>) -> Seq<Option<SystemFunction>> {
    cmds.map_values(|c: Command| command_function(c))
}

/// The calls that an end-of-epoch action contributes to the combined
/// program; the change of epoch contributes its own program last.
pub open spec fn action_calls(action: EndOfEpochTransactionKind) -> Seq<Option<SystemFunction>> {
    match action {
        EndOfEpochTransactionKind::ChangeEpoch(_) => Seq::empty(),
        EndOfEpochTransactionKind::AuthenticatorStateCreate => seq![Some(SystemFunction::AuthenticatorStateCreate)],
        EndOfEpochTransactionKind::AuthenticatorStateExpire(_) => seq![Some(SystemFunction::AuthenticatorStateExpireJwks)],
        EndOfEpochTransactionKind::RandomnessStateCreate => seq![Some(SystemFunction::RandomnessStateCreate)],
        EndOfEpochTransactionKind::DenyListStateCreate => seq![Some(SystemFunction::DenyListCreate)],
        EndOfEpochTransactionKind::BridgeStateCreate(_) => seq![Some(SystemFunction::BridgeCreate)],
        EndOfEpochTransactionKind::BridgeCommitteeInit(_) => seq![
            Some(SystemFunction::ValidatorVotingPowers),
            Some(SystemFunction::BridgeInitCommittee),
        ],
        EndOfEpochTransactionKind::StoreExecutionTimeObservations(_) => seq![
            Some(SystemFunction::StoreExecutionTimeEstimates),
        ],
        EndOfEpochTransactionKind::AccumulatorRootCreate => seq![Some(SystemFunction::AccumulatorRootCreate)],
    }
}

/// The calls of a list of actions, in list order.
pub open spec fn actions_calls(txns: Seq<EndOfEpochTransactionKind>) -> Seq<Option<SystemFunction>>
    decreases txns.len(),
{
    if txns.len() == 0 {
        Seq::empty()
    } else {
        actions_calls(txns.drop_last()) + action_calls(txns.last())
    }
}

proof fn lemma_calls_append(old: Seq<Command>, new: Seq<Command>, n: nat)
    requires
        new.len() == old.len() + n,
        new.take(old.len() as int) == old,
    ensures
        calls_of(new) == calls_of(old) + calls_of(new.skip(old.len() as int)),
{
    assert(new =~= old + new.skip(old.len() as int));
    assert(calls_of(new) =~= calls_of(old) + calls_of(new.skip(old.len() as int)));
}

/// Collects the maintenance calls of an end-of-epoch transaction, in list
/// order, into one builder that the final change of epoch then completes.
/// A change-epoch entry anywhere but last, or none at all, is fatal, and so
/// is an action whose protocol feature is off.
pub fn prepare_end_of_epoch(txns: &Vec<EndOfEpochTransactionKind>, protocol_config: &ProtocolConfig) -> (r: Result<
    ProgramBuilder,
    FatalError,
>)
    ensures
        r is Ok ==> end_of_epoch_well_formed(txns@),
        r is Ok ==> forall|i: int| 0 <= i < txns@.len() ==> end_of_epoch_action_enabled(#[trigger] txns@[i], *protocol_config),
        r is Ok ==> calls_of(r->Ok_0.commands@) == actions_calls(txns@.drop_last()),
        r is Err ==> r->Err_0 == FatalError::MalformedEndOfEpoch || r->Err_0 == FatalError::FeatureDisabled || r->Err_0
            == FatalError::ProgramConstructionFailed,
        r is Err && r->Err_0 == FatalError::MalformedEndOfEpoch ==> !end_of_epoch_well_formed(txns@),
        r is Err && r->Err_0 == FatalError::FeatureDisabled ==> exists|i: int|
            0 <= i < txns@.len() && !end_of_epoch_action_enabled(#[trigger] txns@[i], *protocol_config),
{
    let mut builder = ProgramBuilder::new();
    let len = txns.len();
    let mut i: usize = 0;
    assert(calls_of(builder.commands@) =~= actions_calls(txns@.take(0)));
    while i < len
        invariant
            len == txns@.len(),
            i <= len,
            forall|k: int| 0 <= k < i ==> !(#[trigger] txns@[k] is ChangeEpoch),
            forall|k: int| 0 <= k < i ==> end_of_epoch_action_enabled(#[trigger] txns@[k], *protocol_config),
            calls_of(builder.commands@) == actions_calls(txns@.take(i as int)),
        decreases len - i,
    {
        let ghost before = builder.commands@;
        let ghost n = before.len() as int;
        proof {
            assert(txns@.take(i + 1).drop_last() =~= txns@.take(i as int));
            assert(txns@.take(i + 1).last() == txns@[i as int]);
        }
        match &txns[i] {
            EndOfEpochTransactionKind::ChangeEpoch(_) => {
                if i != len - 1 {
                    assert(txns@[i as int] is ChangeEpoch);
                    return Err(FatalError::MalformedEndOfEpoch);
                }
                assert(txns@.take(i as int) =~= txns@.drop_last());
                return Ok(builder);
            },
            EndOfEpochTransactionKind::AuthenticatorStateCreate => {
                if !protocol_config.enable_jwk_consensus_updates {
                    return Err(FatalError::FeatureDisabled);
                }
                builder = setup_authenticator_state_create(builder);
                proof {
                    lemma_calls_append(before, builder.commands@, 1);
                    assert(calls_of(builder.commands@.skip(n)) =~= action_calls(txns@[i as int]));
                }
            },
            EndOfEpochTransactionKind::AuthenticatorStateExpire(expire) => {
                if !protocol_config.enable_jwk_consensus_updates {
                    return Err(FatalError::FeatureDisabled);
                }
                builder = match setup_authenticator_state_expire(builder, *expire) {
                    Ok(b) => b,
                    Err(_) => {
                        return Err(FatalError::ProgramConstructionFailed);
                    },
                };
                proof {
                    lemma_calls_append(before, builder.commands@, 1);
                    assert(calls_of(builder.commands@.skip(n)) =~= action_calls(txns@[i as int]));
                }
            },
            EndOfEpochTransactionKind::RandomnessStateCreate => {
                if !protocol_config.random_beacon {
                    return Err(FatalError::FeatureDisabled);
                }
                builder = setup_randomness_state_create(builder);
                proof {
                    lemma_calls_append(before, builder.commands@, 1);
                    assert(calls_of(builder.commands@.skip(n)) =~= action_calls(txns@[i as int]));
                }
            },
            EndOfEpochTransactionKind::DenyListStateCreate => {
                if !protocol_config.enable_coin_deny_list_v1 {
                    return Err(FatalError::FeatureDisabled);
                }
                builder = setup_coin_deny_list_state_create(builder);
                proof {
                    lemma_calls_append(before, builder.commands@, 1);
                    assert(calls_of(builder.commands@.skip(n)) =~= action_calls(txns@[i as int]));
                }
            },
            EndOfEpochTransactionKind::BridgeStateCreate(chain_id) => {
                if !protocol_config.enable_bridge {
                    return Err(FatalError::FeatureDisabled);
                }
                builder = setup_bridge_create(builder, *chain_id);
                proof {
                    lemma_calls_append(before, builder.commands@, 1);
                    assert(calls_of(builder.commands@.skip(n)) =~= action_calls(txns@[i as int]));
                }
            },
            EndOfEpochTransactionKind::BridgeCommitteeInit(bridge_shared_version) => {
                if !protocol_config.enable_bridge || !protocol_config.should_try_to_finalize_bridge_committee {
                    return Err(FatalError::FeatureDisabled);
                }
                builder = match setup_bridge_committee_update(builder, *bridge_shared_version) {
                    Ok(b) => b,
                    Err(_) => {
                        return Err(FatalError::ProgramConstructionFailed);
                    },
                };
                proof {
                    lemma_calls_append(before, builder.commands@, 2);
                    assert(calls_of(builder.commands@.skip(n)) =~= action_calls(txns@[i as int]));
                }
            },
            EndOfEpochTransactionKind::StoreExecutionTimeObservations(estimates) => {
                if !protocol_config.execution_time_estimate_congestion_control {
                    return Err(FatalError::FeatureDisabled);
                }
                builder = match setup_store_execution_time_estimates(builder, estimates.clone()) {
                    Ok(b) => b,
                    Err(_) => {
                        return Err(FatalError::ProgramConstructionFailed);
                    },
                };
                proof {
                    lemma_calls_append(before, builder.commands@, 1);
                    assert(calls_of(builder.commands@.skip(n)) =~= action_calls(txns@[i as int]));
                }
            },
            EndOfEpochTransactionKind::AccumulatorRootCreate => {
                if !protocol_config.enable_accumulators {
                    return Err(FatalError::FeatureDisabled);
                }
                builder = setup_accumulator_root_create(builder);
                proof {
                    lemma_calls_append(before, builder.commands@, 1);
                    assert(calls_of(builder.commands@.skip(n)) =~= action_calls(txns@[i as int]));
                }
            },
        }
        i = i + 1;
    }
    proof {
        if txns@.len() > 0 {
            assert(!(txns@[txns@.len() - 1] is ChangeEpoch));
        }
    }
    Err(FatalError::MalformedEndOfEpoch)
}

/// Runs an end-of-epoch transaction: its maintenance calls, collected by
/// `prepare_end_of_epoch`, and the final change of epoch, submitted together
/// as one program by `advance_epoch`.
fn execute_end_of_epoch<V: ProgramExecutor>(
    txns: &Vec<EndOfEpochTransactionKind>,
    store: &mut TemporaryStore,
    vm: &V,
    gas: &mut GasCharger,
    ctx: &TxContext,
    protocol_config: &ProtocolConfig,
) -> (r: Result<Result<(), ExecutionError>, FatalError>)
    requires
        old(store).wf(),
        old(gas).wf(),
    ensures
        final(store).wf(),
        final(store).same_frame(old(store)),
        final(gas).wf(),
        final(gas).gas_coin == old(gas).gas_coin,
        r is Ok ==> end_of_epoch_well_formed(txns@),
        r is Ok ==> forall|i: int| 0 <= i < txns@.len() ==> end_of_epoch_action_enabled(#[trigger] txns@[i], *protocol_config),
        r is Err ==> end_of_epoch_fatal(r->Err_0),
        r is Ok && r->Ok_0 is Err ==> r->Ok_0->Err_0.kind == ExecutionErrorKind::InvariantViolation,
        r is Err && r->Err_0 == FatalError::MalformedEndOfEpoch ==> !end_of_epoch_well_formed(txns@),
        r is Err && r->Err_0 == FatalError::FeatureDisabled ==> exists|i: int|
            0 <= i < txns@.len() && !end_of_epoch_action_enabled(#[trigger] txns@[i], *protocol_config),
        r is Ok && r->Ok_0 is Ok ==> forall|k: int|
            0 <= k < txns@.last()->ChangeEpoch_0.system_packages@.len() && (#[trigger] txns@.last()->ChangeEpoch_0.system_packages@[k]).version
                != OBJECT_START_VERSION ==> final(store).upgraded_packages@.contains(txns@.last()->ChangeEpoch_0.system_packages@[k].id),
{
    let builder = match prepare_end_of_epoch(txns, protocol_config) {
        Ok(b) => b,
        Err(e) => {
            return Err(e);
        },
    };
    match &txns[txns.len() - 1] {
        EndOfEpochTransactionKind::ChangeEpoch(change_epoch) => {
            advance_epoch(builder, change_epoch, store, vm, gas, ctx, protocol_config)
        },
        _ => Err(FatalError::MalformedEndOfEpoch),
    }
}

/// Sets the clock to the consensus commit timestamp, by a system program.
pub fn setup_consensus_commit<V: ProgramExecutor>(
    consensus_commit_timestamp_ms: u64,
    store: &mut TemporaryStore,
    vm: &V,
    gas: &mut GasCharger,
    ctx: &TxContext,
) -> (r: Result<(), ExecutionError>)
    requires
        old(store).wf(),
        old(gas).wf(),
    ensures
        final(store).wf(),
        final(store).same_frame(old(store)),
        final(gas).wf(),
        final(gas).gas_coin == old(gas).gas_coin,
{
    let pt = consensus_commit_prologue_pt(consensus_commit_timestamp_ms);
    run_program(vm, ExecutionMode::System, store, gas, ctx, &pt)
}

/// Hands new JWKs to the authenticator state, by a system program.
pub fn setup_authenticator_state_update<V: ProgramExecutor>(
    update: &AuthenticatorStateUpdate,
    store: &mut TemporaryStore,
    vm: &V,
    gas: &mut GasCharger,
    ctx: &TxContext,
) -> (r: Result<(), ExecutionError>)
    requires
        old(store).wf(),
        old(gas).wf(),
    ensures
        final(store).wf(),
        final(store).same_frame(old(store)),
        final(gas).wf(),
        final(gas).gas_coin == old(gas).gas_coin,
{
    let pt = authenticator_state_update_pt(update);
    run_program(vm, ExecutionMode::System, store, gas, ctx, &pt)
}

/// Hands a randomness round to the randomness state, by a system program.
/// Bytes too many to pass fail without running anything.
pub fn setup_randomness_state_update<V: ProgramExecutor>(
    update: &RandomnessStateUpdate,
    store: &mut TemporaryStore,
    vm: &V,
    gas: &mut GasCharger,
    ctx: &TxContext,
) -> (r: Result<(), ExecutionError>)
    requires
        old(store).wf(),
        old(gas).wf(),
    ensures
        final(store).wf(),
        final(store).same_frame(old(store)),
        final(gas).wf(),
        final(gas).gas_coin == old(gas).gas_coin,
        update.random_bytes@.len() > MAX_SEQUENCE_LENGTH ==> r is Err && *final(store) == *old(store),
{
    match randomness_state_update_pt(update) {
        Ok(pt) => run_program(vm, ExecutionMode::System, store, gas, ctx, &pt),
        Err(e) => Err(e),
    }
}

/// The ways executing a kind can fail.
pub open spec fn loop_fatal(e: FatalError) -> bool {
    end_of_epoch_fatal(e) || e == FatalError::ConsensusCommitPrologueFailed || e == FatalError::GenesisOutsideEpochZero
}

/// The ways executing a transaction can fail.
pub open spec fn transaction_fatal(e: FatalError) -> bool {
    loop_fatal(e) || e == FatalError::InvalidCancellationReason || e == FatalError::ConservationViolated
}

/// Executes the one kind that the transaction carries, then checks that no
/// object is both written and deleted.
pub fn execution_loop<V: ProgramExecutor>(
    vm: &V,
    mode: ExecutionMode,
    store: &mut TemporaryStore,
    gas: &mut GasCharger,
    ctx: &TxContext,
    transaction_kind: TransactionKind,
    protocol_config: &ProtocolConfig,
) -> (r: Result<Result<(), ExecutionError>, FatalError>)
    requires
        old(store).wf(),
        old(gas).wf(),
    ensures
        final(store).wf(),
        final(store).same_frame(old(store)),
        final(gas).wf(),
        final(gas).gas_coin == old(gas).gas_coin,
        transaction_kind is EndOfEpochTransaction && r is Ok ==> end_of_epoch_well_formed(
            transaction_kind->EndOfEpochTransaction_0@,
        ),
        transaction_kind is Genesis && ctx.epoch != 0 ==> r == Err::<Result<(), ExecutionError>, FatalError>(
            FatalError::GenesisOutsideEpochZero,
        ),
        transaction_kind is Genesis && ctx.epoch == 0 && old(store).written@.len() == 0 && old(store).deleted@.len()
            == 0 && distinct_ids(transaction_kind->Genesis_0.objects@)
            && transaction_kind->Genesis_0.objects@.len() <= MAX_OBJECTS ==> r == Ok::<
            Result<(), ExecutionError>,
            FatalError,
        >(Ok(())) && final(store).written@ == genesis_records(transaction_kind->Genesis_0.objects@, ctx.digest)
            && final(store).deleted@ == old(store).deleted@ && final(store).upgraded_packages@
            == old(store).upgraded_packages@,
        r is Err ==> loop_fatal(r->Err_0),
        transaction_kind is ChangeEpoch ==> r is Ok ==> r->Ok_0 is Ok || r->Ok_0->Err_0.kind
            == ExecutionErrorKind::InvariantViolation,
        transaction_kind is ChangeEpoch && r is Ok && r->Ok_0 is Err ==> !final(store).results_consistent(),
        transaction_kind is ChangeEpoch && r is Err ==> epoch_change_fatal(r->Err_0),
        transaction_kind is ChangeEpoch && r is Ok && r->Ok_0 is Ok ==> forall|k: int|
            0 <= k < transaction_kind->ChangeEpoch_0.system_packages@.len()
                && (#[trigger] transaction_kind->ChangeEpoch_0.system_packages@[k]).version != OBJECT_START_VERSION
                ==> final(store).upgraded_packages@.contains(transaction_kind->ChangeEpoch_0.system_packages@[k].id),
        transaction_kind is EndOfEpochTransaction && r is Err ==> end_of_epoch_fatal(r->Err_0),
        transaction_kind is EndOfEpochTransaction && r is Ok && r->Ok_0 is Err ==> r->Ok_0->Err_0.kind
            == ExecutionErrorKind::InvariantViolation,
        transaction_kind is ProgrammableTransaction || transaction_kind is ProgrammableSystemTransaction
            || transaction_kind is AuthenticatorStateUpdate || transaction_kind is RandomnessStateUpdate ==> r is Ok,
        r is Err && r->Err_0 == FatalError::MalformedEndOfEpoch ==> transaction_kind is EndOfEpochTransaction
            && !end_of_epoch_well_formed(transaction_kind->EndOfEpochTransaction_0@),
        r is Err && r->Err_0 == FatalError::FeatureDisabled ==> transaction_kind is EndOfEpochTransaction && exists|i: int|
            0 <= i < transaction_kind->EndOfEpochTransaction_0@.len() && !end_of_epoch_action_enabled(
                #[trigger] transaction_kind->EndOfEpochTransaction_0@[i],
                *protocol_config,
            ),
        r is Err && r->Err_0 == FatalError::ConsensusCommitPrologueFailed ==> transaction_kind is ConsensusCommitPrologue
            || transaction_kind is ConsensusCommitPrologueV2 || transaction_kind is ConsensusCommitPrologueV3
            || transaction_kind is ConsensusCommitPrologueV4,
        r is Err && r->Err_0 == FatalError::GenesisOutsideEpochZero ==> transaction_kind is Genesis && ctx.epoch != 0,
        r is Ok && r->Ok_0 is Ok ==> final(store).results_consistent(),
{
    let result = match transaction_kind {
        TransactionKind::ChangeEpoch(change_epoch) => {
            advance_epoch(ProgramBuilder::new(), &change_epoch, store, vm, gas, ctx, protocol_config)
        },
        TransactionKind::Genesis(genesis) => {
            if ctx.epoch != 0 {
                return Err(FatalError::GenesisOutsideEpochZero);
            }
            Ok(create_genesis_objects(store, &genesis.objects, ctx.digest))
        },
        TransactionKind::ConsensusCommitPrologue(prologue) | TransactionKind::ConsensusCommitPrologueV2(prologue)
        | TransactionKind::ConsensusCommitPrologueV3(prologue)
        | TransactionKind::ConsensusCommitPrologueV4(prologue) => {
            match setup_consensus_commit(prologue.commit_timestamp_ms, store, vm, gas, ctx) {
                Ok(()) => Ok(Ok(())),
                Err(_) => Err(FatalError::ConsensusCommitPrologueFailed),
            }
        },
        TransactionKind::ProgrammableTransaction(pt) | TransactionKind::ProgrammableSystemTransaction(pt) => {
            Ok(run_program(vm, mode, store, gas, ctx, &pt))
        },
        TransactionKind::EndOfEpochTransaction(txns) => {
            execute_end_of_epoch(&txns, store, vm, gas, ctx, protocol_config)
        },
        TransactionKind::AuthenticatorStateUpdate(update) => {
            Ok(setup_authenticator_state_update(&update, store, vm, gas, ctx))
        },
        TransactionKind::RandomnessStateUpdate(update) => {
            Ok(setup_randomness_state_update(&update, store, vm, gas, ctx))
        },
    };
    match result {
        Ok(Ok(())) => {
            let consistent = store.check_execution_results_consistency();
            proof {
                if store.deleted@.len() == 0 {
                    assert(store.results_consistent());
                }
            }
            match consistent {
                Ok(()) => Ok(Ok(())),
                Err(e) => Ok(Err(e)),
            }
        },
        other => other,
    }
}

/// Largest version an object can have.
pub const MAX_VERSION: u64 = 0x7fff_ffff_ffff_ffff;

/// Versions that mark a cancelled transaction, with the reason.
pub const CONGESTED: u64 = MAX_VERSION + 2;
pub const RANDOMNESS_UNAVAILABLE: u64 = MAX_VERSION + 3;

/// The digest that genesis leaves as the previous transaction of what it
/// creates; it is no dependency.
pub const GENESIS_MARKER: TransactionDigest = 0;

/// What an epoch change mints (storage and computation rewards) and burns
/// (storage rebates), for the conservation check.
pub open spec fn supply_change(kind: TransactionKind) -> Option<(u128, u128)> {
    match kind {
        TransactionKind::ChangeEpoch(c) => Some(
            ((c.storage_charge + c.computation_charge) as u128, c.storage_rebate as u128),
        ),
        TransactionKind::EndOfEpochTransaction(txns) => if txns@.len() > 0 && txns@.last() is ChangeEpoch {
            let c = txns@.last()->ChangeEpoch_0;
            Some(((c.storage_charge + c.computation_charge) as u128, c.storage_rebate as u128))
        } else {
            None
        },
        _ => None,
    }
}

fn change_epoch_supply(c: &ChangeEpoch) -> (r: (u128, u128))
    ensures
        r == ((c.storage_charge + c.computation_charge) as u128, c.storage_rebate as u128),
{
    (c.storage_charge as u128 + c.computation_charge as u128, c.storage_rebate as u128)
}

/// The supply change of an epoch change. An end-of-epoch transaction whose
/// last action is not the change of epoch is fatal.
pub fn advance_epoch_supply_change(kind: &TransactionKind) -> (r: Result<Option<(u128, u128)>, FatalError>)
    ensures
        r is Err <==> kind is EndOfEpochTransaction && !(kind->EndOfEpochTransaction_0@.len() > 0
            && kind->EndOfEpochTransaction_0@.last() is ChangeEpoch),
        r is Err ==> r->Err_0 == FatalError::MalformedEndOfEpoch,
        r is Ok ==> r->Ok_0 == supply_change(*kind),
{
    match kind {
        TransactionKind::ChangeEpoch(c) => Ok(Some(change_epoch_supply(c))),
        TransactionKind::EndOfEpochTransaction(txns) => {
            if txns.len() == 0 {
                return Err(FatalError::MalformedEndOfEpoch);
            }
            match &txns[txns.len() - 1] {
                EndOfEpochTransactionKind::ChangeEpoch(c) => Ok(Some(change_epoch_supply(c))),
                _ => Err(FatalError::MalformedEndOfEpoch),
            }
        },
        _ => Ok(None),
    }
}

/// The failure a transaction takes without running: a denied certificate,
/// then an input deleted by an earlier consensus stream, then a congestion
/// or randomness cancellation. `None` where it must run (or where the
/// cancellation reason is invalid).
pub open spec fn short_circuit_kind(
    deny_cert: bool,
    contains_stream_ended_input: bool,
    cancelled_objects: Option<(Vec<ObjectId>, u64)>,
) -> Option<ExecutionErrorKind> {
    if deny_cert {
        Some(ExecutionErrorKind::CertificateDenied)
    } else if contains_stream_ended_input {
        Some(ExecutionErrorKind::InputObjectDeleted)
    } else {
        match cancelled_objects {
            Some((ids, reason)) => if reason == CONGESTED {
                Some(ExecutionErrorKind::ExecutionCancelledDueToSharedObjectCongestion { congested_objects: ids })
            } else if reason == RANDOMNESS_UNAVAILABLE {
                Some(ExecutionErrorKind::ExecutionCancelledDueToRandomnessUnavailable)
            } else {
                None
            },
            None => None,
        }
    }
}

/// A cancellation marker that names neither congestion nor randomness, on a
/// transaction that is neither denied nor reading a deleted input.
pub open spec fn invalid_cancellation(
    deny_cert: bool,
    contains_stream_ended_input: bool,
    cancelled_objects: Option<(Vec<ObjectId>, u64)>,
) -> bool {
    !deny_cert && !contains_stream_ended_input && cancelled_objects is Some && cancelled_objects->Some_0.1
        != CONGESTED && cancelled_objects->Some_0.1 != RANDOMNESS_UNAVAILABLE
}

/// Decides whether a transaction runs: `Ok(None)` to run it, `Ok(Some(e))`
/// to fail it without running, and a fatal error for an invalid
/// cancellation reason.
pub fn short_circuit(
    deny_cert: bool,
    contains_stream_ended_input: bool,
    cancelled_objects: Option<(Vec<ObjectId>, u64)>,
) -> (r: Result<Option<ExecutionError>, FatalError>)
    ensures
        r is Err <==> invalid_cancellation(deny_cert, contains_stream_ended_input, cancelled_objects),
        r is Err ==> r->Err_0 == FatalError::InvalidCancellationReason,
        r is Ok && r->Ok_0 is None <==> !deny_cert && !contains_stream_ended_input && cancelled_objects is None,
        r is Ok && r->Ok_0 is Some ==> Some(r->Ok_0->Some_0.kind) == short_circuit_kind(
            deny_cert,
            contains_stream_ended_input,
            cancelled_objects,
        ) && r->Ok_0->Some_0.command is None,
{
    if deny_cert {
        Ok(Some(ExecutionError::new(ExecutionErrorKind::CertificateDenied)))
    } else if contains_stream_ended_input {
        Ok(Some(ExecutionError::new(ExecutionErrorKind::InputObjectDeleted)))
    } else if let Some((congested_objects, reason)) = cancelled_objects {
        if reason == CONGESTED {
            Ok(
                Some(
                    ExecutionError::new(
                        ExecutionErrorKind::ExecutionCancelledDueToSharedObjectCongestion { congested_objects },
                    ),
                ),
            )
        } else if reason == RANDOMNESS_UNAVAILABLE {
            Ok(Some(ExecutionError::new(ExecutionErrorKind::ExecutionCancelledDueToRandomnessUnavailable)))
        } else {
            Err(FatalError::InvalidCancellationReason)
        }
    } else {
        Ok(None)
    }
}

/// The result after the conservation checks: a violation replaces it, and a
/// pass keeps it.
pub fn apply_conservation_outcome(
    result: Result<(), ExecutionError>,
    outcome: Result<(), ExecutionError>,
) -> (r: Result<(), ExecutionError>)
    ensures
        outcome is Err ==> r == outcome,
        outcome is Ok ==> r == result,
{
    match outcome {
        Ok(()) => result,
        Err(e) => Err(e),
    }
}

/// The transaction changes no epoch: it mints and burns nothing.
pub open spec fn not_epoch_change(kind: TransactionKind) -> bool {
    !(kind is ChangeEpoch) && !(kind is EndOfEpochTransaction)
}

/// The buffer holds exactly the objects the transaction may change, and
/// nothing is deleted: nothing has run yet.
pub open spec fn untouched(store: TemporaryStore) -> bool {
    store.written@ == mutable_objects(store.inputs@) && store.deleted@.len() == 0
}

/// The charge for reading the inputs fits the budget.
pub open spec fn inputs_affordable(gas: GasCharger, store: TemporaryStore) -> bool {
    gas.gas_coin is None || gas.computation_cost + store.inputs@.len() * gas.gas_price <= gas.gas_budget
}

/// The error that the effects-size limit gives a buffer, if any.
pub open spec fn effects_limit_error(
    metered: bool,
    store: TemporaryStore,
    protocol_config: ProtocolConfig,
) -> Option<ExecutionErrorKind> {
    effects_size_outcome(
        metered,
        store.spec_effects_size() as u64,
        protocol_config.max_serialized_tx_effects_size_bytes,
        protocol_config.max_serialized_tx_effects_size_bytes_system_tx,
    )
}

/// Charges for the inputs, then (unless the transaction is denied, reads a
/// deleted input, or was cancelled) executes its kind; enforces the size
/// limits; charges gas; routes the storage rebates an unmetered transaction
/// released to the system state; and checks conservation, whose violation
/// replaces the result. Every failure up to here is a status, not an abort;
/// only invariant violations are fatal.
pub fn execute_transaction<V: ProgramExecutor>(
    vm: &V,
    mode: ExecutionMode,
    store: &mut TemporaryStore,
    gas: &mut GasCharger,
    ctx: &TxContext,
    transaction_kind: TransactionKind,
    protocol_config: &ProtocolConfig,
    enable_expensive_checks: bool,
    deny_cert: bool,
    contains_stream_ended_input: bool,
    cancelled_objects: Option<(Vec<ObjectId>, u64)>,
) -> (r: Result<(GasCostSummary, Result<(), ExecutionError>), FatalError>)
    requires
        old(store).wf(),
        old(gas).wf(),
    ensures
        final(store).wf(),
        final(store).same_frame(old(store)),
        r is Ok && !(transaction_kind is Genesis) && !mode.spec_skip_conservation_checks() ==> conserved_as_checked(
            *final(store),
            r->Ok_0.0,
            enable_expensive_checks,
            supply_change(transaction_kind),
        ),
        transaction_kind is EndOfEpochTransaction && !end_of_epoch_well_formed(transaction_kind->EndOfEpochTransaction_0@)
            && !deny_cert && !contains_stream_ended_input && cancelled_objects is None ==> r is Err
            || r->Ok_0.1 is Err,
        deny_cert || contains_stream_ended_input || cancelled_objects is Some || !inputs_affordable(
            *old(gas),
            *old(store),
        ) ==> r is Err || r->Ok_0.1 is Err,
        r is Ok && r->Ok_0.1 is Err && old(gas).gas_coin is Some ==> final(store).writes_match_changeable(),
        r is Err ==> transaction_fatal(r->Err_0),
        invalid_cancellation(deny_cert, contains_stream_ended_input, cancelled_objects) && inputs_affordable(
            *old(gas),
            *old(store),
        ) && not_epoch_change(transaction_kind) ==> r == Err::<(GasCostSummary, Result<(), ExecutionError>), FatalError>(
            FatalError::InvalidCancellationReason,
        ),
        short_circuit_kind(deny_cert, contains_stream_ended_input, cancelled_objects) is Some && inputs_affordable(
            *old(gas),
            *old(store),
        ) && untouched(*old(store)) && not_epoch_change(transaction_kind) ==> {
            &&& r is Ok
            &&& r->Ok_0.1 is Err
            &&& r->Ok_0.1->Err_0.command is None
            &&& final(store).writes_match_changeable()
            &&& Some(r->Ok_0.1->Err_0.kind) == if effects_limit_error(
                old(gas).gas_coin is Some,
                *old(store),
                *protocol_config,
            ) is Some {
                effects_limit_error(old(gas).gas_coin is Some, *old(store), *protocol_config)
            } else {
                short_circuit_kind(deny_cert, contains_stream_ended_input, cancelled_objects)
            }
        },
        !inputs_affordable(*old(gas), *old(store)) && untouched(*old(store)) && not_epoch_change(transaction_kind)
            ==> r is Ok && r->Ok_0.1 is Err && r->Ok_0.1->Err_0.kind == ExecutionErrorKind::InsufficientGas
            && r->Ok_0.1->Err_0.command is None,
        transaction_kind is Genesis && ctx.epoch == 0 && old(store).inputs@.len() == 0 && old(store).written@.len() == 0
            && old(store).deleted@.len() == 0 && old(gas).gas_coin is None && !deny_cert && !contains_stream_ended_input
            && cancelled_objects is None && distinct_ids(transaction_kind->Genesis_0.objects@)
            && transaction_kind->Genesis_0.objects@.len() <= MAX_OBJECTS && genesis_within_limits(
            transaction_kind->Genesis_0.objects@,
            ctx.digest,
            *protocol_config,
        ) ==> r is Ok && r->Ok_0.1 is Ok && final(store).written@ == genesis_records(
            transaction_kind->Genesis_0.objects@,
            ctx.digest,
        ) && final(store).upgraded_packages@ == old(store).upgraded_packages@,
{
    let is_genesis_tx = matches!(transaction_kind, TransactionKind::Genesis(_));
    let adjustment = match advance_epoch_supply_change(&transaction_kind) {
        Ok(a) => a,
        Err(e) => {
            return Err(e);
        },
    };
    let mut result = gas.charge_input_objects(store);
    if result.is_ok() {
        let mut execution_result: Result<(), ExecutionError> = match short_circuit(
            deny_cert,
            contains_stream_ended_input,
            cancelled_objects,
        ) {
            Ok(Some(e)) => Err(e),
            Ok(None) => {
                let ghost kind = transaction_kind;
                let res = match execution_loop(vm, mode, store, gas, ctx, transaction_kind, protocol_config) {
                    Ok(res) => res,
                    Err(e) => {
                        return Err(e);
                    },
                };
                proof {
                    if kind is Genesis && res is Ok && store.written@ == genesis_records(kind->Genesis_0.objects@, ctx.digest) {
                        assert(store.written@.len() == kind->Genesis_0.objects@.len());
                    }
                }
                res
            },
            Err(e) => {
                return Err(e);
            },
        };
        let meter_check = check_meter_limit(
            !gas.is_unmetered(),
            store.estimate_effects_size_upperbound(),
            protocol_config.max_serialized_tx_effects_size_bytes,
            protocol_config.max_serialized_tx_effects_size_bytes_system_tx,
        );
        if let Err(e) = meter_check {
            execution_result = Err(e);
        }
        if execution_result.is_ok() {
            let written_check = check_written_objects_limit(
                !gas.is_unmetered(),
                store.written_objects_size(),
                protocol_config.max_size_written_objects,
                protocol_config.max_size_written_objects_system_tx,
            );
            if let Err(e) = written_check {
                execution_result = Err(e);
            }
        }
        result = execution_result;
    }
    proof {
        lemma_sums_nonneg(store.written@);
    }
    let cost_summary = gas.charge_gas(store, &mut result);
    if gas.is_unmetered() {
        store.conserve_unmetered_storage_rebate(gas.unmetered_storage_rebate);
    }
    let outcome = match run_conservation_checks(
        store,
        gas,
        mode,
        enable_expensive_checks,
        &cost_summary,
        is_genesis_tx,
        adjustment,
    ) {
        Ok(o) => o,
        Err(e) => {
            return Err(e);
        },
    };
    Ok((cost_summary, apply_conservation_outcome(result, outcome)))
}

/// The inputs of a transaction, as checked before execution: the objects,
/// whether one was deleted by an earlier consensus stream, and the
/// cancellation marker (the congested objects and the reason) if any.
#[derive(Debug)]
pub struct CheckedInputObjects {
    pub objects: Vec<InputObject>,
    pub contains_consensus_stream_ended: bool,
    pub cancelled: Option<(Vec<ObjectId>, u64)>,
}

/// Who pays for gas, with what coin (none for system transactions), at what
/// price and up to what budget.
#[derive(Debug, Clone, Copy, PartialEq, Eq, Structural)]
pub struct GasData {
    pub payment: Option<ObjectId>,
    pub owner: u64,
    pub price: u64,
    pub reference_gas_price: u64,
    pub budget: u64,
}

/// The outcome of a transaction: its effects, and the execution result.
#[derive(Debug)]
pub struct ExecutionOutput {
    pub effects: TransactionEffects,
    pub result: Result<(), ExecutionError>,
}

/// The previous transactions of the inputs, each once, without the genesis
/// marker.
pub fn transaction_dependencies(inputs: &Vec<InputObject>) -> (r: Vec<TransactionDigest>)
    ensures
        forall|d: TransactionDigest| #[trigger] r@.contains(d) <==> d != GENESIS_MARKER && exists|j: int|
            0 <= j < inputs@.len() && (#[trigger] inputs@[j]).object.previous_transaction == d,
{
    let mut r: Vec<TransactionDigest> = Vec::new();
    let mut i: usize = 0;
    while i < inputs.len()
        invariant
            i <= inputs@.len(),
            forall|d: TransactionDigest| #[trigger] r@.contains(d) <==> d != GENESIS_MARKER && exists|j: int|
                0 <= j < i && (#[trigger] inputs@[j]).object.previous_transaction == d,
        decreases inputs@.len() - i,
    {
        let d = inputs[i].object.previous_transaction;
        let ghost before = r@;
        if d != GENESIS_MARKER && !contains_id(&r, d) {
            r.push(d);
        }
        proof {
            assert forall|x: TransactionDigest| #[trigger] r@.contains(x) <==> x != GENESIS_MARKER && exists|j: int|
                0 <= j < i + 1 && (#[trigger] inputs@[j]).object.previous_transaction == x by {
                if r@.contains(x) {
                    if before.contains(x) {
                        let j = choose|j: int| 0 <= j < i && (#[trigger] inputs@[j]).object.previous_transaction == x;
                        assert(0 <= j < i + 1 && inputs@[j].object.previous_transaction == x);
                    } else {
                        let k = choose|k: int| 0 <= k < r@.len() && r@[k] == x;
                        assert(r@ == before.push(d));
                        if k < before.len() {
                            assert(before[k] == x);
                        }
                        assert(x == d);
                        assert(inputs@[i as int].object.previous_transaction == x);
                    }
                }
                if x != GENESIS_MARKER && exists|j: int|
                    0 <= j < i + 1 && (#[trigger] inputs@[j]).object.previous_transaction == x {
                    let j = choose|j: int| 0 <= j < i + 1 && (#[trigger] inputs@[j]).object.previous_transaction == x;
                    if j < i {
                        assert(before.contains(x));
                        let k = choose|k: int| 0 <= k < before.len() && before[k] == x;
                        assert(r@[k] == x);
                    } else if before.contains(x) {
                        let k = choose|k: int| 0 <= k < before.len() && before[k] == x;
                        assert(r@[k] == x);
                    } else {
                        assert(r@ == before.push(d));
                        assert(r@[before.len() as int] == x);
                    }
                }
            }
        }
        i = i + 1;
    }
    r
}

/// What conservation says of a transaction's effects: the objects it could
/// change against the objects it left, with the declared gas costs.
pub open spec fn effects_conserved(
    inputs: Seq<InputObject>,
    changed: Seq<ObjectRecord>,
    g: GasCostSummary,
    enable_expensive_checks: bool,
    adjustment: Option<(u128, u128)>,
) -> bool {
    let before = mutable_objects(inputs);
    &&& sum_rebates(before) + g.storage_cost == sum_rebates(changed) + g.storage_rebate + g.non_refundable_storage_fee
    &&& enable_expensive_checks ==> sum_balances(before) + sum_rebates(before) + minted_of(adjustment) == sum_balances(
        changed,
    ) + sum_rebates(changed) + burned_of(adjustment) + g.computation_cost + g.non_refundable_storage_fee
}

/// Executes one transaction to its effects. Every transaction-level failure
/// still yields effects, with gas charged and every written object at a
/// version above all input versions. A `FatalError` means the protocol
/// implementation is inconsistent: the host process must stop.
pub fn execute_transaction_to_effects<V: ProgramExecutor>(
    vm: &V,
    mode: ExecutionMode,
    input_objects: CheckedInputObjects,
    gas_data: GasData,
    transaction_kind: TransactionKind,
    transaction_signer: u64,
    transaction_digest: TransactionDigest,
    epoch_id: u64,
    epoch_timestamp_ms: u64,
    protocol_config: &ProtocolConfig,
    enable_expensive_checks: bool,
    certificate_deny_set: &Vec<TransactionDigest>,
) -> (r: Result<ExecutionOutput, FatalError>)
    requires
        input_objects.objects@.len() <= MAX_OBJECTS,
    ensures
        max_version(input_objects.objects@) == u64::MAX ==> r == Err::<ExecutionOutput, FatalError>(
            FatalError::VersionOverflow,
        ),
        r is Err && r->Err_0 == FatalError::VersionOverflow ==> max_version(input_objects.objects@) == u64::MAX,
        r is Err && r->Err_0 == FatalError::OwnershipInvariantViolated ==> enable_expensive_checks
            && !mode.spec_allow_arbitrary_function_calls(),
        r is Err ==> transaction_fatal(r->Err_0) || r->Err_0 == FatalError::VersionOverflow || r->Err_0
            == FatalError::OwnershipInvariantViolated,
        certificate_deny_set@.contains(transaction_digest) && max_version(input_objects.objects@) < u64::MAX
            && (gas_data.payment is None || input_objects.objects@.len() * gas_data.price <= gas_data.budget)
            && not_epoch_change(transaction_kind) && effects_size_outcome(
            gas_data.payment is Some,
            (EFFECTS_BASE_SIZE_BYTES + mutable_objects(input_objects.objects@).len() * EFFECTS_PER_OBJECT_SIZE_BYTES) as u64,
            protocol_config.max_serialized_tx_effects_size_bytes,
            protocol_config.max_serialized_tx_effects_size_bytes_system_tx,
        ) is None && (!enable_expensive_checks || mode.spec_allow_arbitrary_function_calls() || distinct_input_ids(
            input_objects.objects@,
        )) ==> r is Ok && r->Ok_0.effects.status == (ExecutionStatus::Failure {
            error: ExecutionErrorKind::CertificateDenied,
            command: None,
        }),
        transaction_kind is Genesis && epoch_id == 0 && input_objects.objects@.len() == 0 && gas_data.payment is None
            && !certificate_deny_set@.contains(transaction_digest) && !input_objects.contains_consensus_stream_ended
            && input_objects.cancelled is None && distinct_ids(transaction_kind->Genesis_0.objects@)
            && transaction_kind->Genesis_0.objects@.len() <= MAX_OBJECTS && genesis_within_limits(
            transaction_kind->Genesis_0.objects@,
            transaction_digest,
            *protocol_config,
        ) ==> r is Ok && r->Ok_0.result is Ok && r->Ok_0.effects.status == ExecutionStatus::Success
            && r->Ok_0.effects.changed_objects@ == genesis_records(transaction_kind->Genesis_0.objects@, transaction_digest),
        r is Ok ==> {
            let out = r->Ok_0;
            let e = out.effects;
            let inputs = input_objects.objects@;
            &&& (e.status is Success <==> out.result is Ok)
            &&& out.result is Err ==> e.status is Failure && same_kind(e.status->error, out.result->Err_0.kind)
                && e.status->Failure_command == out.result->Err_0.command
            &&& e.transaction_digest == transaction_digest
            &&& e.epoch == epoch_id
            &&& forall|j: int| 0 <= j < inputs.len() ==> (#[trigger] inputs[j]).object.version < e.lamport_version
            &&& forall|k: int|
                0 <= k < e.changed_objects@.len() ==> !(#[trigger] e.changed_objects@[k]).is_package
                    ==> e.changed_objects@[k].version == e.lamport_version
            &&& forall|k: int|
                0 <= k < e.changed_objects@.len() ==> (#[trigger] e.changed_objects@[k]).previous_transaction
                    == transaction_digest
            &&& !(transaction_kind is Genesis) && !mode.spec_skip_conservation_checks() ==> effects_conserved(
                inputs,
                e.changed_objects@,
                e.gas_used,
                enable_expensive_checks,
                supply_change(transaction_kind),
            )
            &&& out.result is Err && gas_data.payment is Some && enable_expensive_checks && !(transaction_kind is Genesis)
                && !mode.spec_skip_conservation_checks() && not_epoch_change(transaction_kind) ==> sum_balances(
                e.changed_objects@,
            ) + e.gas_used.computation_cost + e.gas_used.storage_cost == sum_balances(mutable_objects(inputs))
                + e.gas_used.storage_rebate
            &&& out.result is Err && gas_data.payment is Some ==> {
                &&& e.changed_objects@.len() == mutable_objects(inputs).len()
                &&& forall|k: int|
                    0 <= k < e.changed_objects@.len() ==> (#[trigger] e.changed_objects@[k]).id == mutable_objects(
                        inputs,
                    )[k].id
            }
            &&& forall|d: TransactionDigest| #[trigger] e.dependencies@.contains(d) <==> d != GENESIS_MARKER
                && exists|j: int| 0 <= j < inputs.len() && (#[trigger] inputs[j]).object.previous_transaction == d
        },
{
    let CheckedInputObjects { objects, contains_consensus_stream_ended, cancelled } = input_objects;
    let transaction_dependencies = transaction_dependencies(&objects);
    let mut store = match TemporaryStore::new(objects, transaction_digest, epoch_id) {
        Some(s) => s,
        None => {
            return Err(FatalError::VersionOverflow);
        },
    };
    let shared_object_refs = store.shared_object_refs();
    let mut gas = match gas_data.payment {
        Some(coin) => GasCharger::new(coin, gas_data.price, gas_data.budget),
        None => GasCharger::new_unmetered(),
    };
    let sponsor = if gas_data.owner == transaction_signer {
        None
    } else {
        Some(gas_data.owner)
    };
    let ctx = TxContext {
        sender: transaction_signer,
        digest: transaction_digest,
        epoch: epoch_id,
        epoch_timestamp_ms,
        reference_gas_price: gas_data.reference_gas_price,
        gas_price: gas_data.price,
        gas_budget: gas_data.budget,
        sponsor,
    };
    let ghost kind = transaction_kind;
    let deny_cert = contains_id(certificate_deny_set, transaction_digest);
    let (gas_cost_summary, execution_result) = match execute_transaction(
        vm,
        mode,
        &mut store,
        &mut gas,
        &ctx,
        transaction_kind,
        protocol_config,
        enable_expensive_checks,
        deny_cert,
        contains_consensus_stream_ended,
        cancelled,
    ) {
        Ok(r) => r,
        Err(e) => {
            return Err(e);
        },
    };
    let (status, execution_result) = match execution_result {
        Ok(()) => (ExecutionStatus::Success, Ok(())),
        Err(error) => {
            let copy = ExecutionError { kind: error.kind.duplicate(), command: error.command };
            (ExecutionStatus::Failure { error: error.kind, command: error.command }, Err(copy))
        },
    };
    if enable_expensive_checks && !mode.allow_arbitrary_function_calls() {
        proof {
            if distinct_input_ids(store.inputs@) && store.writes_match_changeable() {
                store.lemma_matching_writes_respect_ownership();
            }
        }
        if store.check_ownership_invariants().is_err() {
            return Err(FatalError::OwnershipInvariantViolated);
        }
    }
    let ghost written = store.written@;
    let ghost lamport = store.lamport_version;
    let ghost upgraded = store.upgraded_packages@;
    let effects = store.into_effects(shared_object_refs, transaction_dependencies, gas_cost_summary, status);
    proof {
        lemma_finalized_sums(written, effects.changed_objects@, lamport, transaction_digest, upgraded);
        assert forall|k: int|
            0 <= k < effects.changed_objects@.len() && !(#[trigger] effects.changed_objects@[k]).is_package
                implies effects.changed_objects@[k].version == effects.lamport_version by {
            assert(effects.changed_objects@[k] == finalized(written[k], lamport, transaction_digest, upgraded));
        }
        assert forall|k: int|
            0 <= k < effects.changed_objects@.len() implies (#[trigger] effects.changed_objects@[k]).previous_transaction
                == transaction_digest && effects.changed_objects@[k].id == written[k].id by {
            assert(effects.changed_objects@[k] == finalized(written[k], lamport, transaction_digest, upgraded));
        }
        if kind is Genesis && upgraded.len() == 0 && lamport == OBJECT_START_VERSION && written == genesis_records(
            kind->Genesis_0.objects@,
            transaction_digest,
        ) {
            assert forall|k: int| 0 <= k < written.len() implies #[trigger] effects.changed_objects@[k] == written[k] by {
                assert(effects.changed_objects@[k] == finalized(written[k], lamport, transaction_digest, upgraded));
            }
            assert(effects.changed_objects@ =~= written);
        }
    }
    Ok(ExecutionOutput { effects, result: execution_result })
}

/// Runs a genesis program on the given inputs, without gas, and returns the
/// written objects at their final versions.
pub fn execute_genesis_state_update<V: ProgramExecutor>(
    vm: &V,
    tx_context: &TxContext,
    input_objects: Vec<InputObject>,
    pt: &ProgrammableTransaction,
) -> (r: Result<Vec<ObjectRecord>, ExecutionError>)
    requires
        input_objects@.len() <= MAX_OBJECTS,
    ensures
        max_version(input_objects@) == u64::MAX ==> r is Err,
        r is Ok ==> forall|k: int|
            0 <= k < r->Ok_0@.len() ==> (#[trigger] r->Ok_0@[k]).previous_transaction == tx_context.digest
                && (!r->Ok_0@[k].is_package ==> r->Ok_0@[k].version == max_version(input_objects@) + 1),
{
    let mut store = match TemporaryStore::new(input_objects, tx_context.digest, 0) {
        Some(s) => s,
        None => {
            return Err(ExecutionError::new(ExecutionErrorKind::InvariantViolation));
        },
    };
    let mut gas = GasCharger::new_unmetered();
    match run_program(vm, ExecutionMode::Genesis, &mut store, &mut gas, tx_context, pt) {
        Ok(()) => {},
        Err(e) => {
            return Err(e);
        },
    }
    let ghost written = store.written@;
    let ghost lamport = store.lamport_version;
    let ghost upgraded = store.upgraded_packages@;
    let effects = store.into_effects(Vec::new(), Vec::new(), GasCostSummary::zero(), ExecutionStatus::Success);
    proof {
        assert forall|k: int|
            0 <= k < effects.changed_objects@.len() implies (#[trigger] effects.changed_objects@[k]).previous_transaction
                == tx_context.digest && (!effects.changed_objects@[k].is_package ==> effects.changed_objects@[k].version
                == max_version(input_objects@) + 1) by {
            assert(effects.changed_objects@[k] == finalized(written[k], lamport, tx_context.digest, upgraded));
        }
    }
    Ok(effects.changed_objects)
}

} // verus!
