//! Programs that the protocol itself runs: epoch advance (normal and safe
//! mode), the consensus commit prologue, authenticator and randomness state
//! updates, and the maintenance calls of an end-of-epoch transaction.
use vstd::prelude::*;
use crate::config::ProtocolConfig;
use crate::encoding::{
    bcs_byte_vec, bcs_u64, bcs_u8, byte_vec_encoding, id_bytes, object_id_bytes, u64_le_bytes,
    MAX_SEQUENCE_LENGTH,
};
use crate::error::{ExecutionError, ExecutionErrorKind, ObjectId};
use crate::transaction::{
    AuthenticatorStateExpire, AuthenticatorStateUpdate, ChainIdentifier, RandomnessStateUpdate,
};
use crate::program::{
    accepts_object, may_widen,
    keeps_slots, object_at, pure_at, Argument, BuildError, CallArg, Command, ObjectArg,
    ProgramBuilder, ProgrammableTransaction, SystemFunction, TypeTag, merge_object_arg,
    same_slot,
};

verus! {

/// Version that every object and package starts at.
pub const OBJECT_START_VERSION: u64 = 1;

pub const SUI_FRAMEWORK_PACKAGE_ID: ObjectId = 0x2;
pub const SUI_SYSTEM_PACKAGE_ID: ObjectId = 0x3;
pub const BRIDGE_PACKAGE_ID: ObjectId = 0xb;
pub const SUI_SYSTEM_STATE_OBJECT_ID: ObjectId = 0x5;
pub const SUI_CLOCK_OBJECT_ID: ObjectId = 0x6;
pub const SUI_AUTHENTICATOR_STATE_OBJECT_ID: ObjectId = 0x7;
pub const SUI_RANDOMNESS_STATE_OBJECT_ID: ObjectId = 0x8;
pub const SUI_BRIDGE_OBJECT_ID: ObjectId = 0x9;

/// Smallest share of voting power (in hundredths of a percent) that the
/// bridge committee needs.
pub const BRIDGE_COMMITTEE_MINIMAL_VOTING_POWER: u64 = 7500;

/// The chain identifiers (first four bytes of the genesis checkpoint digest)
/// of the public networks.
pub const MAINNET_CHAIN_IDENTIFIER: u32 = 0x35834a8a;
pub const TESTNET_CHAIN_IDENTIFIER: u32 = 0x4c78adac;

/// Bridge codes of the chains.
pub const BRIDGE_CHAIN_ID_SUI_MAINNET: u8 = 0;
pub const BRIDGE_CHAIN_ID_SUI_TESTNET: u8 = 1;
pub const BRIDGE_CHAIN_ID_SUI_CUSTOM: u8 = 2;

/// The system state object, taken mutably.
pub open spec fn sui_system_mut() -> ObjectArg {
    ObjectArg::SharedObject {
        id: SUI_SYSTEM_STATE_OBJECT_ID,
        initial_shared_version: OBJECT_START_VERSION,
        mutable: true,
    }
}

/// The clock object, taken mutably.
pub open spec fn clock_mut() -> ObjectArg {
    ObjectArg::SharedObject {
        id: SUI_CLOCK_OBJECT_ID,
        initial_shared_version: OBJECT_START_VERSION,
        mutable: true,
    }
}

fn system_state_arg() -> (r: ObjectArg)
    ensures
        r == sui_system_mut(),
{
    ObjectArg::SharedObject {
        id: SUI_SYSTEM_STATE_OBJECT_ID,
        initial_shared_version: OBJECT_START_VERSION,
        mutable: true,
    }
}

/// Everything an epoch advance needs, fixed once per attempt and used
/// unchanged by the normal and the safe-mode program.
#[derive(Debug, Clone, Copy, PartialEq, Eq, Structural)]
pub struct AdvanceEpochParams {
    pub epoch: u64,
    pub next_protocol_version: u64,
    pub storage_charge: u64,
    pub computation_charge: u64,
    pub storage_rebate: u64,
    pub non_refundable_storage_fee: u64,
    pub storage_fund_reinvest_rate: u64,
    pub reward_slashing_rate: u64,
    pub epoch_start_timestamp_ms: u64,
}

pub open spec fn call_args(c: Command) -> Seq<Argument> {
    match c {
        Command::MoveCall { arguments, .. } => arguments@,
        _ => Seq::empty(),
    }
}

/// `c` calls `function` of `package` with these type arguments.
pub open spec fn is_call_to(
    c: Command,
    package: ObjectId,
    function: SystemFunction,
    type_arguments: Seq<TypeTag>,
) -> bool {
    match c {
        Command::MoveCall { package: p, function: f, type_arguments: t, .. } => {
            &&& p == package
            &&& f == function
            &&& t@ == type_arguments
        },
        _ => false,
    }
}

/// `c` calls `function` of `package` with no type argument and no argument.
pub open spec fn is_plain_call(c: Command, package: ObjectId, function: SystemFunction) -> bool {
    is_call_to(c, package, function, Seq::empty()) && call_args(c).len() == 0
}

/// `new` is `old` followed by `n` more commands.
pub open spec fn appends(old: Seq<Command>, new: Seq<Command>, n: nat) -> bool {
    new.len() == old.len() + n && new.take(old.len() as int) == old
}

/// `cmds[k]` mints a reward balance from an input that holds `amount`.
pub open spec fn mints_reward(inputs: Seq<CallArg>, cmds: Seq<Command>, k: int, amount: u64) -> bool {
    &&& 0 <= k < cmds.len()
    &&& is_call_to(cmds[k], SUI_FRAMEWORK_PACKAGE_ID, SystemFunction::BalanceCreateRewards, seq![TypeTag::Sui])
    &&& call_args(cmds[k]).len() == 1
    &&& pure_at(inputs, call_args(cmds[k])[0], u64_le_bytes(amount))
}

fn sui_type_arg() -> (r: Vec<TypeTag>)
    ensures
        r@ == seq![TypeTag::Sui],
{
    let mut r: Vec<TypeTag> = Vec::new();
    r.push(TypeTag::Sui);
    assert(r@ =~= seq![TypeTag::Sui]);
    r
}

fn one_arg(a0: Argument) -> (r: Vec<Argument>)
    ensures
        r@ == seq![a0],
{
    let mut r: Vec<Argument> = Vec::new();
    r.push(a0);
    assert(r@ =~= seq![a0]);
    r
}

fn two_args(a0: Argument, a1: Argument) -> (r: Vec<Argument>)
    ensures
        r@ == seq![a0, a1],
{
    let mut r = one_arg(a0);
    r.push(a1);
    assert(r@ =~= seq![a0, a1]);
    r
}

fn three_args(a0: Argument, a1: Argument, a2: Argument) -> (r: Vec<Argument>)
    ensures
        r@ == seq![a0, a1, a2],
{
    let mut r = two_args(a0, a1);
    r.push(a2);
    assert(r@ =~= seq![a0, a1, a2]);
    r
}

/// Appends the two calls that mint the storage and the computation rewards.
fn mint_epoch_rewards_in_pt(builder: &mut ProgramBuilder, params: &AdvanceEpochParams) -> (r: (
    Argument,
    Argument,
))
    ensures
        keeps_slots(old(builder).inputs@, final(builder).inputs@),
        final(builder).inputs@.take(old(builder).inputs@.len() as int) == old(builder).inputs@,
        appends(old(builder).commands@, final(builder).commands@, 2),
        mints_reward(
            final(builder).inputs@,
            final(builder).commands@,
            old(builder).commands@.len() as int,
            params.storage_charge,
        ),
        mints_reward(
            final(builder).inputs@,
            final(builder).commands@,
            old(builder).commands@.len() + 1 as int,
            params.computation_charge,
        ),
        r.0 == Argument::Output(old(builder).commands.len()),
        r.1 == Argument::Output((old(builder).commands.len() + 1) as usize),
        forall|j: int|
            old(builder).inputs@.len() <= j < final(builder).inputs@.len() ==> (
            #[trigger] final(builder).inputs@[j]) is Pure,
{
    let ghost n = builder.commands@.len() as int;
    let storage_charge_arg = builder.pure_bytes(bcs_u64(params.storage_charge));
    let storage_rewards = builder.programmable_move_call(
        SUI_FRAMEWORK_PACKAGE_ID,
        SystemFunction::BalanceCreateRewards,
        sui_type_arg(),
        one_arg(storage_charge_arg),
    );
    let ghost mid_inputs = builder.inputs@;
    assert(mints_reward(mid_inputs, builder.commands@, n, params.storage_charge));
    let computation_charge_arg = builder.pure_bytes(bcs_u64(params.computation_charge));
    let computation_rewards = builder.programmable_move_call(
        SUI_FRAMEWORK_PACKAGE_ID,
        SystemFunction::BalanceCreateRewards,
        sui_type_arg(),
        one_arg(computation_charge_arg),
    );
    assert(builder.commands@[n] == builder.commands@.drop_last()[n]);
    assert(mints_reward(builder.inputs@, builder.commands@, n, params.storage_charge));
    assert(mints_reward(builder.inputs@, builder.commands@, n + 1, params.computation_charge));
    assert(final(builder).commands@.take(old(builder).commands@.len() as int) =~= old(builder).commands@);
    assert(final(builder).inputs@.take(old(builder).inputs@.len() as int) =~= old(builder).inputs@);
    (storage_rewards, computation_rewards)
}

/// `cmds[k]` advances the epoch: it takes the rewards minted by the two
/// commands before it, the system state, and the parameters in their order.
pub open spec fn advances_epoch(
    inputs: Seq<CallArg>,
    cmds: Seq<Command>,
    k: int,
    p: AdvanceEpochParams,
) -> bool {
    let a = call_args(cmds[k]);
    &&& 2 <= k < cmds.len()
    &&& is_call_to(cmds[k], SUI_SYSTEM_PACKAGE_ID, SystemFunction::AdvanceEpoch, Seq::empty())
    &&& a.len() == 10
    &&& a[0] == Argument::Output((k - 2) as usize)
    &&& a[1] == Argument::Output((k - 1) as usize)
    &&& object_at(inputs, a[2], sui_system_mut())
    &&& pure_at(inputs, a[3], u64_le_bytes(p.epoch))
    &&& pure_at(inputs, a[4], u64_le_bytes(p.next_protocol_version))
    &&& pure_at(inputs, a[5], u64_le_bytes(p.storage_rebate))
    &&& pure_at(inputs, a[6], u64_le_bytes(p.non_refundable_storage_fee))
    &&& pure_at(inputs, a[7], u64_le_bytes(p.storage_fund_reinvest_rate))
    &&& pure_at(inputs, a[8], u64_le_bytes(p.reward_slashing_rate))
    &&& pure_at(inputs, a[9], u64_le_bytes(p.epoch_start_timestamp_ms))
}

/// `cmds[k]` is the safe-mode epoch advance: rewards, system state, epoch,
/// protocol version, storage rebate, non-refundable fee, and the start time
/// when `with_start_time`.
pub open spec fn advances_epoch_safe_mode(
    inputs: Seq<CallArg>,
    cmds: Seq<Command>,
    k: int,
    p: AdvanceEpochParams,
    with_start_time: bool,
) -> bool {
    let a = call_args(cmds[k]);
    &&& 2 <= k < cmds.len()
    &&& is_call_to(cmds[k], SUI_SYSTEM_PACKAGE_ID, SystemFunction::AdvanceEpochSafeMode, Seq::empty())
    &&& a.len() == if with_start_time { 8nat } else { 7nat }
    &&& a[0] == Argument::Output((k - 2) as usize)
    &&& a[1] == Argument::Output((k - 1) as usize)
    &&& object_at(inputs, a[2], sui_system_mut())
    &&& pure_at(inputs, a[3], u64_le_bytes(p.epoch))
    &&& pure_at(inputs, a[4], u64_le_bytes(p.next_protocol_version))
    &&& pure_at(inputs, a[5], u64_le_bytes(p.storage_rebate))
    &&& pure_at(inputs, a[6], u64_le_bytes(p.non_refundable_storage_fee))
    &&& with_start_time ==> pure_at(inputs, a[7], u64_le_bytes(p.epoch_start_timestamp_ms))
}

/// `cmds[k]` destroys the storage rebates that the command before it returned.
pub open spec fn destroys_rebates(cmds: Seq<Command>, k: int) -> bool {
    &&& 1 <= k < cmds.len()
    &&& is_call_to(cmds[k], SUI_FRAMEWORK_PACKAGE_ID, SystemFunction::BalanceDestroyRebates, seq![TypeTag::Sui])
    &&& call_args(cmds[k]) == seq![Argument::Output((k - 1) as usize)]
}

/// Adds a `u64` as a pure input and appends its argument to `args`.
fn push_u64(builder: &mut ProgramBuilder, args: &mut Vec<Argument>, v: u64)
    ensures
        final(builder).commands@ == old(builder).commands@,
        keeps_slots(old(builder).inputs@, final(builder).inputs@),
        final(builder).inputs@.take(old(builder).inputs@.len() as int) == old(builder).inputs@,
        forall|j: int|
            old(builder).inputs@.len() <= j < final(builder).inputs@.len() ==> (
            #[trigger] final(builder).inputs@[j]) is Pure,
        final(args)@ == old(args)@.push(final(args)@.last()),
        pure_at(final(builder).inputs@, final(args)@.last(), u64_le_bytes(v)),
{
    let a = builder.pure_bytes(bcs_u64(v));
    args.push(a);
    assert(final(builder).inputs@.take(old(builder).inputs@.len() as int) =~= old(builder).inputs@);
}

/// The normal epoch-advance program, appended to what `builder` holds: mint
/// the rewards, advance the epoch, destroy the returned rebates. It fails
/// only where the builder already uses the system state object in a way
/// that cannot be merged.
pub fn construct_advance_epoch_pt(builder: ProgramBuilder, params: &AdvanceEpochParams) -> (r: Result<
    ProgrammableTransaction,
    ExecutionError,
>)
    ensures
        r is Ok <==> accepts_object(builder.inputs@, sui_system_mut()),
        r is Err ==> r->Err_0.kind == ExecutionErrorKind::InvariantViolation,
        r is Ok ==> {
            let pt = r->Ok_0;
            let n = builder.commands@.len() as int;
            &&& appends(builder.commands@, pt.commands@, 4)
            &&& keeps_slots(builder.inputs@, pt.inputs@)
            &&& mints_reward(pt.inputs@, pt.commands@, n, params.storage_charge)
            &&& mints_reward(pt.inputs@, pt.commands@, n + 1, params.computation_charge)
            &&& advances_epoch(pt.inputs@, pt.commands@, n + 2, *params)
            &&& destroys_rebates(pt.commands@, n + 3)
        },
{
    let mut builder = builder;
    let ghost start = builder;
    let ghost n = builder.commands@.len() as int;
    let (storage_rewards, computation_rewards) = mint_epoch_rewards_in_pt(&mut builder, params);
    let ghost minted = builder;
    assert forall|j: int|
        0 <= j < minted.inputs@.len() && same_slot(
            #[trigger] minted.inputs@[j],
            CallArg::Object(sui_system_mut()),
        ) implies j < start.inputs@.len() && minted.inputs@[j] == start.inputs@[j] by {
        if j < start.inputs@.len() {
            assert(minted.inputs@[j] == minted.inputs@.take(start.inputs@.len() as int)[j]);
        }
    }
    let system_arg = match builder.obj(system_state_arg()) {
        Ok(a) => a,
        Err(_) => {
            proof {
                assert(!accepts_object(minted.inputs@, sui_system_mut()));
                assert(!accepts_object(start.inputs@, sui_system_mut()));
            }
            return Err(ExecutionError::new(ExecutionErrorKind::InvariantViolation));
        },
    };
    assert(accepts_object(start.inputs@, sui_system_mut())) by {
        assert(accepts_object(minted.inputs@, sui_system_mut()));
    }
    let mut arguments: Vec<Argument> = Vec::new();
    arguments.push(storage_rewards);
    arguments.push(computation_rewards);
    arguments.push(system_arg);
    let ghost i2 = builder.inputs@;
    assert(object_at(i2, arguments@[2], sui_system_mut()));
    push_u64(&mut builder, &mut arguments, params.epoch);
    push_u64(&mut builder, &mut arguments, params.next_protocol_version);
    push_u64(&mut builder, &mut arguments, params.storage_rebate);
    push_u64(&mut builder, &mut arguments, params.non_refundable_storage_fee);
    push_u64(&mut builder, &mut arguments, params.storage_fund_reinvest_rate);
    push_u64(&mut builder, &mut arguments, params.reward_slashing_rate);
    push_u64(&mut builder, &mut arguments, params.epoch_start_timestamp_ms);
    let ghost args = arguments@;
    let ghost filled = builder.inputs@;
    assert(args.len() == 10);
    assert(args[0] == storage_rewards);
    assert(args[1] == computation_rewards);
    assert(object_at(filled, args[2], sui_system_mut()));
    assert(pure_at(filled, args[3], u64_le_bytes(params.epoch)));
    assert(pure_at(filled, args[4], u64_le_bytes(params.next_protocol_version)));
    assert(pure_at(filled, args[5], u64_le_bytes(params.storage_rebate)));
    assert(pure_at(filled, args[6], u64_le_bytes(params.non_refundable_storage_fee)));
    assert(pure_at(filled, args[7], u64_le_bytes(params.storage_fund_reinvest_rate)));
    assert(pure_at(filled, args[8], u64_le_bytes(params.reward_slashing_rate)));
    assert(pure_at(filled, args[9], u64_le_bytes(params.epoch_start_timestamp_ms)));
    let storage_rebates = builder.programmable_move_call(
        SUI_SYSTEM_PACKAGE_ID,
        SystemFunction::AdvanceEpoch,
        Vec::new(),
        arguments,
    );
    builder.programmable_move_call(
        SUI_FRAMEWORK_PACKAGE_ID,
        SystemFunction::BalanceDestroyRebates,
        sui_type_arg(),
        one_arg(storage_rebates),
    );
    let pt = builder.finish();
    assert(pt.commands@.take(n) =~= start.commands@);
    assert(pt.commands@[n] == minted.commands@[n]);
    assert(pt.commands@[n + 1] == minted.commands@[n + 1]);
    assert(call_args(pt.commands@[n + 2]) == args);
    assert(appends(start.commands@, pt.commands@, 4));
    assert(keeps_slots(start.inputs@, pt.inputs@));
    assert(mints_reward(pt.inputs@, pt.commands@, n, params.storage_charge));
    assert(mints_reward(pt.inputs@, pt.commands@, n + 1, params.computation_charge));
    assert(advances_epoch(pt.inputs@, pt.commands@, n + 2, *params));
    assert(destroys_rebates(pt.commands@, n + 3));
    Ok(pt)
}

/// The reduced epoch-advance program run when the normal one fails: mint the
/// rewards and call the safe-mode advance, passing the start time only where
/// the protocol asks for it.
pub fn construct_advance_epoch_safe_mode_pt(
    params: &AdvanceEpochParams,
    protocol_config: &ProtocolConfig,
) -> (r: Result<ProgrammableTransaction, ExecutionError>)
    ensures
        r is Ok,
        r->Ok_0.commands@.len() == 3,
        mints_reward(r->Ok_0.inputs@, r->Ok_0.commands@, 0, params.storage_charge),
        mints_reward(r->Ok_0.inputs@, r->Ok_0.commands@, 1, params.computation_charge),
        advances_epoch_safe_mode(
            r->Ok_0.inputs@,
            r->Ok_0.commands@,
            2,
            *params,
            protocol_config.advance_epoch_start_time_in_safe_mode,
        ),
{
    let mut builder = ProgramBuilder::new();
    let (storage_rewards, computation_rewards) = mint_epoch_rewards_in_pt(&mut builder, params);
    let ghost minted = builder;
    assert forall|j: int|
        0 <= j < minted.inputs@.len() implies !same_slot(
        #[trigger] minted.inputs@[j],
        CallArg::Object(sui_system_mut()),
    ) by {
        assert(minted.inputs@[j] is Pure);
    }
    let system_arg = match builder.obj(system_state_arg()) {
        Ok(a) => a,
        Err(_) => {
            return Err(ExecutionError::new(ExecutionErrorKind::InvariantViolation));
        },
    };
    let mut arguments: Vec<Argument> = Vec::new();
    arguments.push(storage_rewards);
    arguments.push(computation_rewards);
    arguments.push(system_arg);
    push_u64(&mut builder, &mut arguments, params.epoch);
    push_u64(&mut builder, &mut arguments, params.next_protocol_version);
    push_u64(&mut builder, &mut arguments, params.storage_rebate);
    push_u64(&mut builder, &mut arguments, params.non_refundable_storage_fee);
    if protocol_config.advance_epoch_start_time_in_safe_mode {
        push_u64(&mut builder, &mut arguments, params.epoch_start_timestamp_ms);
    }
    let ghost args = arguments@;
    let ghost filled = builder.inputs@;
    assert(args[0] == storage_rewards);
    assert(args[1] == computation_rewards);
    assert(object_at(filled, args[2], sui_system_mut()));
    builder.programmable_move_call(
        SUI_SYSTEM_PACKAGE_ID,
        SystemFunction::AdvanceEpochSafeMode,
        Vec::new(),
        arguments,
    );
    let pt = builder.finish();
    assert(pt.commands@[0] == minted.commands@[0]);
    assert(pt.commands@[1] == minted.commands@[1]);
    assert(call_args(pt.commands@[2]) == args);
    Ok(pt)
}

/// Appends a call without arguments of a framework function.
fn append_plain_call(builder: ProgramBuilder, function: SystemFunction) -> (r: ProgramBuilder)
    ensures
        r.inputs@ == builder.inputs@,
        appends(builder.commands@, r.commands@, 1),
        is_plain_call(r.commands@.last(), SUI_FRAMEWORK_PACKAGE_ID, function),
{
    let mut builder = builder;
    builder.programmable_move_call(SUI_FRAMEWORK_PACKAGE_ID, function, Vec::new(), Vec::new());
    assert(builder.commands@.take(builder.commands@.len() - 1) =~= builder.commands@.drop_last());
    builder
}

/// Appends the creation of the authenticator state object.
pub fn setup_authenticator_state_create(builder: ProgramBuilder) -> (r: ProgramBuilder)
    ensures
        r.inputs@ == builder.inputs@,
        appends(builder.commands@, r.commands@, 1),
        is_plain_call(r.commands@.last(), SUI_FRAMEWORK_PACKAGE_ID, SystemFunction::AuthenticatorStateCreate),
{
    append_plain_call(builder, SystemFunction::AuthenticatorStateCreate)
}

/// Appends the creation of the randomness state object.
pub fn setup_randomness_state_create(builder: ProgramBuilder) -> (r: ProgramBuilder)
    ensures
        r.inputs@ == builder.inputs@,
        appends(builder.commands@, r.commands@, 1),
        is_plain_call(r.commands@.last(), SUI_FRAMEWORK_PACKAGE_ID, SystemFunction::RandomnessStateCreate),
{
    append_plain_call(builder, SystemFunction::RandomnessStateCreate)
}

/// Appends the creation of the coin deny list.
pub fn setup_coin_deny_list_state_create(builder: ProgramBuilder) -> (r: ProgramBuilder)
    ensures
        r.inputs@ == builder.inputs@,
        appends(builder.commands@, r.commands@, 1),
        is_plain_call(r.commands@.last(), SUI_FRAMEWORK_PACKAGE_ID, SystemFunction::DenyListCreate),
{
    append_plain_call(builder, SystemFunction::DenyListCreate)
}

/// Appends the creation of the accumulator root.
pub fn setup_accumulator_root_create(builder: ProgramBuilder) -> (r: ProgramBuilder)
    ensures
        r.inputs@ == builder.inputs@,
        appends(builder.commands@, r.commands@, 1),
        is_plain_call(r.commands@.last(), SUI_FRAMEWORK_PACKAGE_ID, SystemFunction::AccumulatorRootCreate),
{
    append_plain_call(builder, SystemFunction::AccumulatorRootCreate)
}

/// The bridge code of a chain: mainnet and testnet have their own, every
/// other chain is custom.
pub open spec fn bridge_chain_code(chain_id: ChainIdentifier) -> u8 {
    if chain_id.prefix == MAINNET_CHAIN_IDENTIFIER {
        BRIDGE_CHAIN_ID_SUI_MAINNET
    } else if chain_id.prefix == TESTNET_CHAIN_IDENTIFIER {
        BRIDGE_CHAIN_ID_SUI_TESTNET
    } else {
        BRIDGE_CHAIN_ID_SUI_CUSTOM
    }
}

pub fn bridge_chain_id(chain_id: ChainIdentifier) -> (r: u8)
    ensures
        r == bridge_chain_code(chain_id),
{
    if chain_id.prefix == MAINNET_CHAIN_IDENTIFIER {
        BRIDGE_CHAIN_ID_SUI_MAINNET
    } else if chain_id.prefix == TESTNET_CHAIN_IDENTIFIER {
        BRIDGE_CHAIN_ID_SUI_TESTNET
    } else {
        BRIDGE_CHAIN_ID_SUI_CUSTOM
    }
}

/// Appends the creation of the bridge object with the chain's bridge code.
pub fn setup_bridge_create(builder: ProgramBuilder, chain_id: ChainIdentifier) -> (r: ProgramBuilder)
    ensures
        keeps_slots(builder.inputs@, r.inputs@),
        appends(builder.commands@, r.commands@, 1),
        is_call_to(r.commands@.last(), BRIDGE_PACKAGE_ID, SystemFunction::BridgeCreate, Seq::empty()),
        call_args(r.commands@.last()).len() == 2,
        pure_at(r.inputs@, call_args(r.commands@.last())[0], object_id_bytes(SUI_BRIDGE_OBJECT_ID)),
        pure_at(r.inputs@, call_args(r.commands@.last())[1], seq![bridge_chain_code(chain_id)]),
{
    let mut builder = builder;
    let bridge_uid = builder.pure_bytes(id_bytes(SUI_BRIDGE_OBJECT_ID));
    let chain = builder.pure_bytes(bcs_u8(bridge_chain_id(chain_id)));
    builder.programmable_move_call(
        BRIDGE_PACKAGE_ID,
        SystemFunction::BridgeCreate,
        Vec::new(),
        two_args(bridge_uid, chain),
    );
    assert(builder.commands@.take(builder.commands@.len() - 1) =~= builder.commands@.drop_last());
    builder
}

/// No slot of `inputs` uses the object `id`.
pub open spec fn object_unused(inputs: Seq<CallArg>, id: ObjectId) -> bool {
    forall|j: int|
        0 <= j < inputs.len() ==> !(#[trigger] inputs[j] is Object && inputs[j]->Object_0.spec_id() == id)
}

/// Appends the initialisation of the bridge committee from the validators'
/// voting powers, with the minimal voting power. It fails only where the
/// builder already uses the bridge or the system state in a way that cannot
/// be merged.
pub fn setup_bridge_committee_update(builder: ProgramBuilder, bridge_shared_version: u64) -> (r: Result<
    ProgramBuilder,
    BuildError,
>)
    ensures
        object_unused(builder.inputs@, SUI_BRIDGE_OBJECT_ID) && object_unused(
            builder.inputs@,
            SUI_SYSTEM_STATE_OBJECT_ID,
        ) ==> r is Ok,
        r is Ok ==> {
            let b = r->Ok_0;
            let n = builder.commands@.len() as int;
            let a = call_args(b.commands@[n + 1]);
            &&& keeps_slots(builder.inputs@, b.inputs@)
            &&& appends(builder.commands@, b.commands@, 2)
            &&& is_call_to(b.commands@[n], SUI_SYSTEM_PACKAGE_ID, SystemFunction::ValidatorVotingPowers, Seq::empty())
            &&& call_args(b.commands@[n]).len() == 1
            &&& object_at(b.inputs@, call_args(b.commands@[n])[0], sui_system_mut())
            &&& is_call_to(b.commands@[n + 1], BRIDGE_PACKAGE_ID, SystemFunction::BridgeInitCommittee, Seq::empty())
            &&& a.len() == 3
            &&& object_at(
                b.inputs@,
                a[0],
                ObjectArg::SharedObject {
                    id: SUI_BRIDGE_OBJECT_ID,
                    initial_shared_version: bridge_shared_version,
                    mutable: true,
                },
            )
            &&& a[1] == Argument::Output(n as usize)
            &&& pure_at(b.inputs@, a[2], u64_le_bytes(BRIDGE_COMMITTEE_MINIMAL_VOTING_POWER))
        },
{
    let mut builder = builder;
    let ghost start = builder;
    let bridge = match builder.obj(
        ObjectArg::SharedObject {
            id: SUI_BRIDGE_OBJECT_ID,
            initial_shared_version: bridge_shared_version,
            mutable: true,
        },
    ) {
        Ok(a) => a,
        Err(e) => {
            return Err(e);
        },
    };
    let system_state = match builder.obj(system_state_arg()) {
        Ok(a) => a,
        Err(e) => {
            return Err(e);
        },
    };
    let voting_power = builder.programmable_move_call(
        SUI_SYSTEM_PACKAGE_ID,
        SystemFunction::ValidatorVotingPowers,
        Vec::new(),
        one_arg(system_state),
    );
    let ghost n = start.commands@.len() as int;
    let ghost after_first = builder.commands@;
    let min_participation = builder.pure_bytes(bcs_u64(BRIDGE_COMMITTEE_MINIMAL_VOTING_POWER));
    builder.programmable_move_call(
        BRIDGE_PACKAGE_ID,
        SystemFunction::BridgeInitCommittee,
        Vec::new(),
        three_args(bridge, voting_power, min_participation),
    );
    assert(builder.commands@[n] == after_first[n]);
    assert(builder.commands@.take(n) =~= start.commands@);
    Ok(builder)
}

/// Appends the expiry of JWKs older than `expire.min_epoch`. It fails only
/// where the builder already uses the authenticator state in a way that
/// cannot be merged.
pub fn setup_authenticator_state_expire(builder: ProgramBuilder, expire: AuthenticatorStateExpire) -> (r:
    Result<ProgramBuilder, BuildError>)
    ensures
        r is Ok <==> accepts_object(
            builder.inputs@,
            ObjectArg::SharedObject {
                id: SUI_AUTHENTICATOR_STATE_OBJECT_ID,
                initial_shared_version: expire.authenticator_obj_initial_shared_version,
                mutable: true,
            },
        ),
        r is Ok ==> {
            let b = r->Ok_0;
            let a = call_args(b.commands@.last());
            &&& keeps_slots(builder.inputs@, b.inputs@)
            &&& appends(builder.commands@, b.commands@, 1)
            &&& is_call_to(b.commands@.last(), SUI_FRAMEWORK_PACKAGE_ID, SystemFunction::AuthenticatorStateExpireJwks, Seq::empty())
            &&& a.len() == 2
            &&& object_at(
                b.inputs@,
                a[0],
                ObjectArg::SharedObject {
                    id: SUI_AUTHENTICATOR_STATE_OBJECT_ID,
                    initial_shared_version: expire.authenticator_obj_initial_shared_version,
                    mutable: true,
                },
            )
            &&& pure_at(b.inputs@, a[1], u64_le_bytes(expire.min_epoch))
        },
{
    let mut builder = builder;
    let state = match builder.obj(
        ObjectArg::SharedObject {
            id: SUI_AUTHENTICATOR_STATE_OBJECT_ID,
            initial_shared_version: expire.authenticator_obj_initial_shared_version,
            mutable: true,
        },
    ) {
        Ok(a) => a,
        Err(e) => {
            return Err(e);
        },
    };
    let min_epoch = builder.pure_bytes(bcs_u64(expire.min_epoch));
    builder.programmable_move_call(
        SUI_FRAMEWORK_PACKAGE_ID,
        SystemFunction::AuthenticatorStateExpireJwks,
        Vec::new(),
        two_args(state, min_epoch),
    );
    assert(builder.commands@.take(builder.commands@.len() - 1) =~= builder.commands@.drop_last());
    Ok(builder)
}

/// Appends the storing of execution-time estimates (already encoded) in the
/// system state. It fails where the builder already uses the system state in
/// a way that cannot be merged, or where the encoding is too long to pass.
pub fn setup_store_execution_time_estimates(builder: ProgramBuilder, estimates: Vec<u8>) -> (r: Result<
    ProgramBuilder,
    BuildError,
>)
    ensures
        r is Ok <==> accepts_object(builder.inputs@, sui_system_mut()) && estimates@.len()
            <= MAX_SEQUENCE_LENGTH,
        r is Ok ==> {
            let b = r->Ok_0;
            let a = call_args(b.commands@.last());
            &&& keeps_slots(builder.inputs@, b.inputs@)
            &&& appends(builder.commands@, b.commands@, 1)
            &&& is_call_to(b.commands@.last(), SUI_SYSTEM_PACKAGE_ID, SystemFunction::StoreExecutionTimeEstimates, Seq::empty())
            &&& a.len() == 2
            &&& object_at(b.inputs@, a[0], sui_system_mut())
            &&& pure_at(b.inputs@, a[1], byte_vec_encoding(estimates@))
        },
{
    let mut builder = builder;
    let system_state = match builder.obj(system_state_arg()) {
        Ok(a) => a,
        Err(e) => {
            return Err(e);
        },
    };
    let encoded = match bcs_byte_vec(&estimates) {
        Some(b) => b,
        None => {
            return Err(BuildError::ValueTooLong);
        },
    };
    let estimates_arg = builder.pure_bytes(encoded);
    builder.programmable_move_call(
        SUI_SYSTEM_PACKAGE_ID,
        SystemFunction::StoreExecutionTimeEstimates,
        Vec::new(),
        two_args(system_state, estimates_arg),
    );
    assert(builder.commands@.take(builder.commands@.len() - 1) =~= builder.commands@.drop_last());
    Ok(builder)
}

/// The program that sets the clock to the consensus commit timestamp.
pub fn consensus_commit_prologue_pt(commit_timestamp_ms: u64) -> (r: ProgrammableTransaction)
    ensures
        r.commands@.len() == 1,
        is_call_to(r.commands@[0], SUI_FRAMEWORK_PACKAGE_ID, SystemFunction::ConsensusCommitPrologue, Seq::empty()),
        call_args(r.commands@[0]).len() == 2,
        object_at(r.inputs@, call_args(r.commands@[0])[0], clock_mut()),
        pure_at(r.inputs@, call_args(r.commands@[0])[1], u64_le_bytes(commit_timestamp_ms)),
{
    let mut builder = ProgramBuilder::new();
    let clock = match builder.obj(
        ObjectArg::SharedObject {
            id: SUI_CLOCK_OBJECT_ID,
            initial_shared_version: OBJECT_START_VERSION,
            mutable: true,
        },
    ) {
        Ok(a) => a,
        Err(_) => {
            proof {
                assert(accepts_object(Seq::empty(), clock_mut()));
            }
            Argument::Input(0)
        },
    };
    let timestamp = builder.pure_bytes(bcs_u64(commit_timestamp_ms));
    builder.programmable_move_call(
        SUI_FRAMEWORK_PACKAGE_ID,
        SystemFunction::ConsensusCommitPrologue,
        Vec::new(),
        two_args(clock, timestamp),
    );
    builder.finish()
}

/// The program that hands new JWKs to the authenticator state.
pub fn authenticator_state_update_pt(update: &AuthenticatorStateUpdate) -> (r: ProgrammableTransaction)
    ensures
        r.commands@.len() == 1,
        is_call_to(r.commands@[0], SUI_FRAMEWORK_PACKAGE_ID, SystemFunction::AuthenticatorStateUpdate, Seq::empty()),
        call_args(r.commands@[0]).len() == 2,
        object_at(
            r.inputs@,
            call_args(r.commands@[0])[0],
            ObjectArg::SharedObject {
                id: SUI_AUTHENTICATOR_STATE_OBJECT_ID,
                initial_shared_version: update.authenticator_obj_initial_shared_version,
                mutable: true,
            },
        ),
        pure_at(r.inputs@, call_args(r.commands@[0])[1], update.new_active_jwks@),
{
    let mut builder = ProgramBuilder::new();
    let target = ObjectArg::SharedObject {
        id: SUI_AUTHENTICATOR_STATE_OBJECT_ID,
        initial_shared_version: update.authenticator_obj_initial_shared_version,
        mutable: true,
    };
    let state = match builder.obj(target) {
        Ok(a) => a,
        Err(_) => {
            proof {
                assert(accepts_object(Seq::empty(), target));
            }
            Argument::Input(0)
        },
    };
    let jwks = builder.pure_bytes(update.new_active_jwks.clone());
    builder.programmable_move_call(
        SUI_FRAMEWORK_PACKAGE_ID,
        SystemFunction::AuthenticatorStateUpdate,
        Vec::new(),
        two_args(state, jwks),
    );
    builder.finish()
}

/// The program that hands a randomness round and its bytes to the randomness
/// state. It fails only where the bytes are too many to pass.
pub fn randomness_state_update_pt(update: &RandomnessStateUpdate) -> (r: Result<
    ProgrammableTransaction,
    ExecutionError,
>)
    ensures
        r is Ok <==> update.random_bytes@.len() <= MAX_SEQUENCE_LENGTH,
        r is Err ==> r->Err_0.kind == ExecutionErrorKind::InvariantViolation,
        r is Ok ==> {
            let pt = r->Ok_0;
            let a = call_args(pt.commands@[0]);
            &&& pt.commands@.len() == 1
            &&& is_call_to(pt.commands@[0], SUI_FRAMEWORK_PACKAGE_ID, SystemFunction::RandomnessStateUpdate, Seq::empty())
            &&& a.len() == 3
            &&& object_at(
                pt.inputs@,
                a[0],
                ObjectArg::SharedObject {
                    id: SUI_RANDOMNESS_STATE_OBJECT_ID,
                    initial_shared_version: update.randomness_obj_initial_shared_version,
                    mutable: true,
                },
            )
            &&& pure_at(pt.inputs@, a[1], u64_le_bytes(update.randomness_round))
            &&& pure_at(pt.inputs@, a[2], byte_vec_encoding(update.random_bytes@))
        },
{
    let encoded = match bcs_byte_vec(&update.random_bytes) {
        Some(b) => b,
        None => {
            return Err(ExecutionError::new(ExecutionErrorKind::InvariantViolation));
        },
    };
    let mut builder = ProgramBuilder::new();
    let target = ObjectArg::SharedObject {
        id: SUI_RANDOMNESS_STATE_OBJECT_ID,
        initial_shared_version: update.randomness_obj_initial_shared_version,
        mutable: true,
    };
    let state = match builder.obj(target) {
        Ok(a) => a,
        Err(_) => {
            proof {
                assert(accepts_object(Seq::empty(), target));
            }
            Argument::Input(0)
        },
    };
    let round = builder.pure_bytes(bcs_u64(update.randomness_round));
    let bytes = builder.pure_bytes(encoded);
    builder.programmable_move_call(
        SUI_FRAMEWORK_PACKAGE_ID,
        SystemFunction::RandomnessStateUpdate,
        Vec::new(),
        three_args(state, round, bytes),
    );
    Ok(builder.finish())
}

} // verus!
