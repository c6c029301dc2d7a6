//! Transactions: the closed set of kinds and the data each carries.
use vstd::prelude::*;
use crate::error::ObjectId;
use crate::program::ProgrammableTransaction;

verus! {

/// Who owns an object.
#[derive(Debug, Clone, Copy, PartialEq, Eq, Structural)]
pub enum Owner {
    AddressOwner(u64),
    ObjectOwner(u64),
    Shared { initial_shared_version: u64 },
    Immutable,
}

/// A system package to install at an epoch change: its identifier, the
/// version it must have afterwards, its modules and its dependencies.
#[derive(Debug, Clone)]
pub struct SystemPackage {
    pub id: ObjectId,
    pub version: u64,
    pub modules: Vec<Vec<u8>>,
    pub dependencies: Vec<ObjectId>,
}

#[derive(Debug, Clone)]
pub struct ChangeEpoch {
    pub epoch: u64,
    pub protocol_version: u64,
    pub storage_charge: u64,
    pub computation_charge: u64,
    pub storage_rebate: u64,
    pub non_refundable_storage_fee: u64,
    pub epoch_start_timestamp_ms: u64,
    pub system_packages: Vec<SystemPackage>,
}

/// An object that genesis creates as given.
#[derive(Debug, Clone, Copy, PartialEq, Eq, Structural)]
pub struct GenesisObject {
    pub id: ObjectId,
    pub owner: Owner,
    pub balance: u64,
    pub is_package: bool,
    pub size: u64,
}

#[derive(Debug, Clone)]
pub struct GenesisTransaction {
    pub objects: Vec<GenesisObject>,
}

#[derive(Debug, Clone, Copy, PartialEq, Eq, Structural)]
pub struct ConsensusCommitPrologue {
    pub epoch: u64,
    pub round: u64,
    pub commit_timestamp_ms: u64,
}

/// New JWKs agreed by consensus, already in their canonical encoding.
#[derive(Debug, Clone)]
pub struct AuthenticatorStateUpdate {
    pub epoch: u64,
    pub round: u64,
    pub new_active_jwks: Vec<u8>,
    pub authenticator_obj_initial_shared_version: u64,
}

#[derive(Debug, Clone, Copy, PartialEq, Eq, Structural)]
pub struct AuthenticatorStateExpire {
    pub min_epoch: u64,
    pub authenticator_obj_initial_shared_version: u64,
}

#[derive(Debug, Clone)]
pub struct RandomnessStateUpdate {
    pub epoch: u64,
    pub randomness_round: u64,
    pub random_bytes: Vec<u8>,
    pub randomness_obj_initial_shared_version: u64,
}

/// The first four bytes of a chain's genesis checkpoint digest.
#[derive(Debug, Clone, Copy, PartialEq, Eq, Structural)]
pub struct ChainIdentifier {
    pub prefix: u32,
}

/// One maintenance action of an end-of-epoch transaction.
#[derive(Debug, Clone)]
pub enum EndOfEpochTransactionKind {
    ChangeEpoch(ChangeEpoch),
    AuthenticatorStateCreate,
    AuthenticatorStateExpire(AuthenticatorStateExpire),
    RandomnessStateCreate,
    DenyListStateCreate,
    BridgeStateCreate(ChainIdentifier),
    BridgeCommitteeInit(u64),
    /// Execution-time observations, already in their canonical encoding.
    StoreExecutionTimeObservations(Vec<u8>),
    AccumulatorRootCreate,
}

#[derive(Debug, Clone)]
pub enum TransactionKind {
    ChangeEpoch(ChangeEpoch),
    Genesis(GenesisTransaction),
    ConsensusCommitPrologue(ConsensusCommitPrologue),
    ConsensusCommitPrologueV2(ConsensusCommitPrologue),
    ConsensusCommitPrologueV3(ConsensusCommitPrologue),
    ConsensusCommitPrologueV4(ConsensusCommitPrologue),
    ProgrammableTransaction(ProgrammableTransaction),
    ProgrammableSystemTransaction(ProgrammableTransaction),
    EndOfEpochTransaction(Vec<EndOfEpochTransactionKind>),
    AuthenticatorStateUpdate(AuthenticatorStateUpdate),
    RandomnessStateUpdate(RandomnessStateUpdate),
}

/// An end-of-epoch list is well formed when its one change-epoch entry is
/// its last.
pub open spec fn end_of_epoch_well_formed(txns: Seq<EndOfEpochTransactionKind>) -> bool {
    &&& txns.len() > 0
    &&& txns.last() is ChangeEpoch
    &&& forall|i: int| 0 <= i < txns.len() - 1 ==> !(#[trigger] txns[i] is ChangeEpoch)
}

} // verus!
