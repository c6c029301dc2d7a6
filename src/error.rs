//! Error values produced while executing a transaction.
use vstd::prelude::*;

verus! {

/// Identifier of an object (an address-sized value, modelled as 64 bits).
pub type ObjectId = u64;

/// Digest of a transaction.
pub type TransactionDigest = u64;

/// What went wrong during execution. Every kind here is a transaction-level
/// failure: it ends in a `Failure` status and valid effects.
#[derive(Debug, Clone, PartialEq, Eq)]
pub enum ExecutionErrorKind {
    InsufficientGas,
    InvariantViolation,
    VMInvariantViolation,
    SuiMoveVerificationError,
    VMVerificationOrDeserializationError,
    PublishUpgradeMissingDependency,
    PublishUpgradeDependencyDowngrade,
    MoveAbort { code: u64 },
    EffectsTooLarge { current_size: u64, max_size: u64 },
    WrittenObjectsTooLarge { current_size: u64, max_size: u64 },
    CertificateDenied,
    InputObjectDeleted,
    ExecutionCancelledDueToSharedObjectCongestion { congested_objects: Vec<ObjectId> },
    ExecutionCancelledDueToRandomnessUnavailable,
}

/// Two kinds are the same failure: equal, or both congestion over the same
/// objects.
pub open spec fn same_kind(a: ExecutionErrorKind, b: ExecutionErrorKind) -> bool {
    match (a, b) {
        (
            ExecutionErrorKind::ExecutionCancelledDueToSharedObjectCongestion { congested_objects: x },
            ExecutionErrorKind::ExecutionCancelledDueToSharedObjectCongestion { congested_objects: y },
        ) => x@ == y@,
        _ => a == b,
    }
}

impl ExecutionErrorKind {
    pub fn duplicate(&self) -> (r: ExecutionErrorKind)
        ensures
            same_kind(r, *self),
    {
        match self {
            ExecutionErrorKind::InsufficientGas => ExecutionErrorKind::InsufficientGas,
            ExecutionErrorKind::InvariantViolation => ExecutionErrorKind::InvariantViolation,
            ExecutionErrorKind::VMInvariantViolation => ExecutionErrorKind::VMInvariantViolation,
            ExecutionErrorKind::SuiMoveVerificationError => ExecutionErrorKind::SuiMoveVerificationError,
            ExecutionErrorKind::VMVerificationOrDeserializationError => {
                ExecutionErrorKind::VMVerificationOrDeserializationError
            },
            ExecutionErrorKind::PublishUpgradeMissingDependency => ExecutionErrorKind::PublishUpgradeMissingDependency,
            ExecutionErrorKind::PublishUpgradeDependencyDowngrade => {
                ExecutionErrorKind::PublishUpgradeDependencyDowngrade
            },
            ExecutionErrorKind::MoveAbort { code } => ExecutionErrorKind::MoveAbort { code: *code },
            ExecutionErrorKind::EffectsTooLarge { current_size, max_size } => ExecutionErrorKind::EffectsTooLarge {
                current_size: *current_size,
                max_size: *max_size,
            },
            ExecutionErrorKind::WrittenObjectsTooLarge { current_size, max_size } => {
                ExecutionErrorKind::WrittenObjectsTooLarge { current_size: *current_size, max_size: *max_size }
            },
            ExecutionErrorKind::CertificateDenied => ExecutionErrorKind::CertificateDenied,
            ExecutionErrorKind::InputObjectDeleted => ExecutionErrorKind::InputObjectDeleted,
            ExecutionErrorKind::ExecutionCancelledDueToSharedObjectCongestion { congested_objects } => {
                ExecutionErrorKind::ExecutionCancelledDueToSharedObjectCongestion {
                    congested_objects: congested_objects.clone(),
                }
            },
            ExecutionErrorKind::ExecutionCancelledDueToRandomnessUnavailable => {
                ExecutionErrorKind::ExecutionCancelledDueToRandomnessUnavailable
            },
        }
    }
}

/// A transaction-level failure, with the index of the command that failed
/// when one is known.
#[derive(Debug, Clone)]
pub struct ExecutionError {
    pub kind: ExecutionErrorKind,
    pub command: Option<usize>,
}

impl ExecutionError {
    pub fn new(kind: ExecutionErrorKind) -> (r: ExecutionError)
        ensures
            r.kind == kind,
            r.command.is_none(),
    {
        ExecutionError { kind, command: None }
    }
}

/// A condition that can only arise when the protocol implementation itself is
/// inconsistent. The host process must stop on any of these: no further
/// execution can be trusted.
#[derive(Debug, Clone, Copy, PartialEq, Eq, Structural)]
pub enum FatalError {
    /// Native-asset conservation failed again after dropping all writes.
    ConservationViolated,
    /// The consensus commit prologue program failed.
    ConsensusCommitPrologueFailed,
    /// The safe-mode epoch advance failed.
    SafeModeAdvanceFailed,
    /// Publishing a system package at its initial version failed.
    SystemPackagePublishFailed,
    /// A system package to replace in place has no earlier version.
    InvalidPackageVersion,
    /// A system package could not be written.
    SystemPackageUpgradeFailed,
    /// A fresh virtual machine could not be created.
    VmCreationFailed,
    /// An end-of-epoch list whose change-epoch entry is missing or not last.
    MalformedEndOfEpoch,
    /// A genesis transaction outside epoch zero.
    GenesisOutsideEpochZero,
    /// A cancellation marker that names neither congestion nor randomness.
    InvalidCancellationReason,
    /// An end-of-epoch action whose protocol feature is switched off.
    FeatureDisabled,
    /// A system program could not be assembled.
    ProgramConstructionFailed,
    /// The input object versions leave no room for a later version.
    VersionOverflow,
    /// A read-only input object was written.
    OwnershipInvariantViolated,
}

} // verus!
