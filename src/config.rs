//! The protocol parameters that execution consults.
use vstd::prelude::*;

verus! {

#[derive(Debug, Clone, Copy, PartialEq, Eq, Structural)]
pub struct ProtocolConfig {
    /// Largest estimated effects size of a metered transaction.
    pub max_serialized_tx_effects_size_bytes: u64,
    /// Largest estimated effects size of a system transaction.
    pub max_serialized_tx_effects_size_bytes_system_tx: u64,
    /// Largest size of written objects of a metered transaction, if limited.
    pub max_size_written_objects: Option<u64>,
    /// Largest size of written objects of a system transaction, if limited.
    pub max_size_written_objects_system_tx: Option<u64>,
    pub storage_fund_reinvest_rate: u64,
    pub reward_slashing_rate: u64,
    /// In safe mode, set the epoch start time directly instead of running
    /// the safe-mode program.
    pub advance_epoch_start_time_in_safe_mode: bool,
    /// Process system packages with a freshly created virtual machine.
    pub fresh_vm_on_framework_upgrade: bool,
    pub enable_jwk_consensus_updates: bool,
    pub random_beacon: bool,
    pub enable_coin_deny_list_v1: bool,
    pub enable_bridge: bool,
    pub should_try_to_finalize_bridge_committee: bool,
    /// Congestion control works from execution-time estimates.
    pub execution_time_estimate_congestion_control: bool,
    pub enable_accumulators: bool,
}

} // verus!
