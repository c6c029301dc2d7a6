//! What a transaction leaves behind: its status, its gas costs, and every
//! object it changed.
use vstd::prelude::*;
use crate::error::{ExecutionErrorKind, ObjectId, TransactionDigest};
use crate::store::ObjectRecord;

verus! {

/// The gas a transaction paid, split by what it paid for.
#[derive(Debug, Clone, Copy, PartialEq, Eq, Structural)]
pub struct GasCostSummary {
    pub computation_cost: u64,
    pub storage_cost: u64,
    pub storage_rebate: u64,
    pub non_refundable_storage_fee: u64,
}

impl GasCostSummary {
    pub open spec fn zero_spec() -> GasCostSummary {
        GasCostSummary { computation_cost: 0, storage_cost: 0, storage_rebate: 0, non_refundable_storage_fee: 0 }
    }

    pub fn zero() -> (r: GasCostSummary)
        ensures
            r == GasCostSummary::zero_spec(),
    {
        GasCostSummary { computation_cost: 0, storage_cost: 0, storage_rebate: 0, non_refundable_storage_fee: 0 }
    }
}

#[derive(Debug, Clone, PartialEq, Eq)]
pub enum ExecutionStatus {
    Success,
    Failure { error: ExecutionErrorKind, command: Option<usize> },
}

/// A shared object the transaction used, at the version it used.
#[derive(Debug, Clone, Copy, PartialEq, Eq, Structural)]
pub struct SharedObjectRef {
    pub id: ObjectId,
    pub version: u64,
}

#[derive(Debug)]
pub struct TransactionEffects {
    pub status: ExecutionStatus,
    pub gas_used: GasCostSummary,
    pub transaction_digest: TransactionDigest,
    pub epoch: u64,
    pub lamport_version: u64,
    /// Every written object, at its final version.
    pub changed_objects: Vec<ObjectRecord>,
    pub deleted: Vec<ObjectId>,
    pub dependencies: Vec<TransactionDigest>,
    pub shared_objects: Vec<SharedObjectRef>,
}

} // verus!
