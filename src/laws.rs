//! Properties that relate several functions of the library.
use vstd::prelude::*;
use crate::engine::upgraded_package_record;
use crate::error::{ExecutionErrorKind, ObjectId, TransactionDigest};
use crate::limits::{effects_size_outcome, written_size_outcome};
use crate::store::{finalized, ObjectRecord};
use crate::system_tx::OBJECT_START_VERSION;
use crate::transaction::SystemPackage;

verus! {

/// A system package replaced in place appears in the effects at exactly the
/// version it was installed with: it is written one below, and effects add
/// one.
pub proof fn upgraded_package_keeps_target_version(
    package: SystemPackage,
    size: u64,
    digest: TransactionDigest,
    lamport_version: u64,
    upgraded: Seq<ObjectId>,
)
    requires
        package.version >= 1,
        upgraded.contains(package.id),
    ensures
        finalized(upgraded_package_record(package, size, digest), lamport_version, digest, upgraded).version
            == package.version,
{
}

/// A package published at the initial version is not incremented by the
/// effects: it keeps the initial version.
pub proof fn published_package_keeps_initial_version(
    package: ObjectRecord,
    lamport_version: u64,
    digest: TransactionDigest,
    upgraded: Seq<ObjectId>,
)
    requires
        package.is_package,
        package.version == OBJECT_START_VERSION,
        !upgraded.contains(package.id),
    ensures
        finalized(package, lamport_version, digest, upgraded).version == OBJECT_START_VERSION,
{
}

/// For a system transaction, written objects one byte over the soft
/// threshold pass, and one byte over the hard threshold fail with the size
/// and the threshold.
pub proof fn written_objects_soft_passes_hard_fails(soft_limit: u64, hard_limit: u64)
    requires
        soft_limit < hard_limit < u64::MAX,
        soft_limit + 1 < hard_limit,
    ensures
        written_size_outcome(false, (soft_limit + 1) as u64, Some(soft_limit), Some(hard_limit)) is None,
        written_size_outcome(false, (hard_limit + 1) as u64, Some(soft_limit), Some(hard_limit)) == Some(
            ExecutionErrorKind::WrittenObjectsTooLarge {
                current_size: (hard_limit + 1) as u64,
                max_size: hard_limit,
            },
        ),
{
}

/// The same for the estimated size of the effects.
pub proof fn effects_size_soft_passes_hard_fails(soft_limit: u64, hard_limit: u64)
    requires
        soft_limit < hard_limit < u64::MAX,
        soft_limit + 1 < hard_limit,
    ensures
        effects_size_outcome(false, (soft_limit + 1) as u64, soft_limit, hard_limit) is None,
        effects_size_outcome(false, (hard_limit + 1) as u64, soft_limit, hard_limit) == Some(
            ExecutionErrorKind::EffectsTooLarge { current_size: (hard_limit + 1) as u64, max_size: hard_limit },
        ),
{
}

} // verus!
