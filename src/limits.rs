//! Size limits on what a transaction may write: a soft threshold that only
//! warns and a hard threshold that fails the transaction.
use vstd::prelude::*;
use crate::error::{ExecutionError, ExecutionErrorKind};

verus! {

/// Which threshold a measured value reached. Each crossing carries the value
/// and the threshold it reached.
#[derive(Debug, Clone, Copy, PartialEq, Eq, Structural)]
pub enum LimitThresholdCrossed {
    Within,
    Soft(u64, u64),
    Hard(u64, u64),
}

/// The hard threshold wins when both are reached, also when they are equal.
pub open spec fn limit_in_range(x: u64, soft_limit: u64, hard_limit: u64) -> LimitThresholdCrossed {
    if x >= hard_limit {
        LimitThresholdCrossed::Hard(x, hard_limit)
    } else if x < soft_limit {
        LimitThresholdCrossed::Within
    } else {
        LimitThresholdCrossed::Soft(x, soft_limit)
    }
}

/// Metered transactions have one threshold, which is hard; unmetered (system)
/// transactions warn at the metered threshold and fail at their own.
pub open spec fn limit_by_meter(
    is_metered: bool,
    value: u64,
    metered_limit: u64,
    unmetered_hard_limit: u64,
) -> LimitThresholdCrossed {
    limit_in_range(value, metered_limit, if is_metered { metered_limit } else { unmetered_hard_limit })
}

pub fn check_limit_in_range(x: u64, soft_limit: u64, hard_limit: u64) -> (r: LimitThresholdCrossed)
    ensures
        r == limit_in_range(x, soft_limit, hard_limit),
{
    if x >= hard_limit {
        LimitThresholdCrossed::Hard(x, hard_limit)
    } else if x < soft_limit {
        LimitThresholdCrossed::Within
    } else {
        LimitThresholdCrossed::Soft(x, soft_limit)
    }
}

pub fn check_limit_by_meter(
    is_metered: bool,
    value: u64,
    metered_limit: u64,
    unmetered_hard_limit: u64,
) -> (r: LimitThresholdCrossed)
    ensures
        r == limit_by_meter(is_metered, value, metered_limit, unmetered_hard_limit),
{
    let hard = if is_metered { metered_limit } else { unmetered_hard_limit };
    check_limit_in_range(value, metered_limit, hard)
}

/// The error that a hard crossing of the effects-size limit produces, if any.
pub open spec fn effects_size_outcome(
    is_metered: bool,
    effects_estimated_size: u64,
    max_effects_size: u64,
    max_effects_size_system_tx: u64,
) -> Option<ExecutionErrorKind> {
    match limit_by_meter(is_metered, effects_estimated_size, max_effects_size, max_effects_size_system_tx) {
        LimitThresholdCrossed::Hard(current, max) => Some(
            ExecutionErrorKind::EffectsTooLarge { current_size: current, max_size: max },
        ),
        _ => None,
    }
}

/// Checks the estimated size of the effects. A soft crossing passes.
pub fn check_meter_limit(
    is_metered: bool,
    effects_estimated_size: u64,
    max_effects_size: u64,
    max_effects_size_system_tx: u64,
) -> (r: Result<(), ExecutionError>)
    ensures
        r.is_ok() <==> effects_size_outcome(
            is_metered,
            effects_estimated_size,
            max_effects_size,
            max_effects_size_system_tx,
        ).is_none(),
        r is Err ==> r->Err_0.command is None,
        r is Err ==> Some(r->Err_0.kind) == effects_size_outcome(
            is_metered,
            effects_estimated_size,
            max_effects_size,
            max_effects_size_system_tx,
        ),
{
    match check_limit_by_meter(is_metered, effects_estimated_size, max_effects_size, max_effects_size_system_tx) {
        LimitThresholdCrossed::Within => Ok(()),
        LimitThresholdCrossed::Soft(_, _) => Ok(()),
        LimitThresholdCrossed::Hard(current, max) => Err(
            ExecutionError::new(
                ExecutionErrorKind::EffectsTooLarge { current_size: current, max_size: max },
            ),
        ),
    }
}

/// The error that a hard crossing of the written-objects limit produces, if
/// any. Without both thresholds configured nothing is checked.
pub open spec fn written_size_outcome(
    is_metered: bool,
    written_objects_size: u64,
    max_written: Option<u64>,
    max_written_system_tx: Option<u64>,
) -> Option<ExecutionErrorKind> {
    match (max_written, max_written_system_tx) {
        (Some(normal), Some(system)) => match limit_by_meter(is_metered, written_objects_size, normal, system) {
            LimitThresholdCrossed::Hard(current, max) => Some(
                ExecutionErrorKind::WrittenObjectsTooLarge { current_size: current, max_size: max },
            ),
            _ => None,
        },
        _ => None,
    }
}

/// Checks the total size of the written objects. A soft crossing passes.
pub fn check_written_objects_limit(
    is_metered: bool,
    written_objects_size: u64,
    max_written: Option<u64>,
    max_written_system_tx: Option<u64>,
) -> (r: Result<(), ExecutionError>)
    ensures
        r.is_ok() <==> written_size_outcome(
            is_metered,
            written_objects_size,
            max_written,
            max_written_system_tx,
        ).is_none(),
        r is Err ==> r->Err_0.command is None,
        r is Err ==> Some(r->Err_0.kind) == written_size_outcome(
            is_metered,
            written_objects_size,
            max_written,
            max_written_system_tx,
        ),
{
    if let (Some(normal), Some(system)) = (max_written, max_written_system_tx) {
        match check_limit_by_meter(is_metered, written_objects_size, normal, system) {
            LimitThresholdCrossed::Within => {},
            LimitThresholdCrossed::Soft(_, _) => {},
            LimitThresholdCrossed::Hard(current, max) => {
                return Err(
                    ExecutionError::new(
                        ExecutionErrorKind::WrittenObjectsTooLarge { current_size: current, max_size: max },
                    ),
                );
            },
        }
    }
    Ok(())
}

} // verus!
