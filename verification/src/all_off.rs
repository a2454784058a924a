//! Wear-safe all-off plans: the targets a device can switch off without
//! wearing out persistent storage, and the wear-limited ones left alone.

use vstd::prelude::*;

use crate::policy::drop_value;
use crate::status::{LuminateStatus, TargetId};

verus! {

/// A target as seen by C callers of plan and state accessors.
pub type LuminateTargetView = TargetId;

/// An owned all-off plan.
#[derive(Debug)]
pub struct LuminateAllOffPlan {
    pub targets: Vec<TargetId>,
    pub skipped_persistent: Vec<TargetId>,
}

/// Decision for `luminate_all_off_plan`: a null device, then a null output.
pub fn all_off_plan_request(device_present: bool, out_present: bool) -> (result: Result<(), LuminateStatus>)
    ensures
        result is Ok <==> device_present && out_present,
        result is Err ==> result == Err::<(), LuminateStatus>(LuminateStatus::NullPointer),
{
    if !device_present || !out_present {
        Err(LuminateStatus::NullPointer)
    } else {
        Ok(())
    }
}

/// Number of wear-safe targets in the plan; 0 for null.
pub fn luminate_all_off_plan_target_count(plan: Option<&LuminateAllOffPlan>) -> (count: usize)
    ensures
        count == match plan { Some(p) => p.targets@.len(), None => 0 },
{
    match plan {
        Some(p) => p.targets.len(),
        None => 0,
    }
}

/// The wear-safe target at `index`, or `None` when out of range or null.
pub fn luminate_all_off_plan_target_at(plan: Option<&LuminateAllOffPlan>, index: usize) -> (target: Option<&LuminateTargetView>)
    ensures
        match plan {
            Some(p) => if index < p.targets@.len() { target == Some(&p.targets@[index as int]) } else { target is None },
            None => target is None,
        },
{
    match plan {
        Some(p) => if index < p.targets.len() { Some(&p.targets[index]) } else { None },
        None => None,
    }
}

/// Number of off-capable wear-limited targets the plan skips; 0 for null.
pub fn luminate_all_off_plan_skipped_persistent_count(plan: Option<&LuminateAllOffPlan>) -> (count: usize)
    ensures
        count == match plan { Some(p) => p.skipped_persistent@.len(), None => 0 },
{
    match plan {
        Some(p) => p.skipped_persistent.len(),
        None => 0,
    }
}

/// The skipped wear-limited target at `index`, or `None` when out of range
/// or null.
pub fn luminate_all_off_plan_skipped_persistent_at(plan: Option<&LuminateAllOffPlan>, index: usize) -> (target: Option<&LuminateTargetView>)
    ensures
        match plan {
            Some(p) => if index < p.skipped_persistent@.len() {
                target == Some(&p.skipped_persistent@[index as int])
            } else {
                target is None
            },
            None => target is None,
        },
{
    match plan {
        Some(p) => if index < p.skipped_persistent.len() { Some(&p.skipped_persistent[index]) } else { None },
        None => None,
    }
}

/// Releases a plan; null is a no-op.
pub fn luminate_all_off_plan_free(plan: Option<Box<LuminateAllOffPlan>>) {
    drop_value(plan);
}

} // verus!
