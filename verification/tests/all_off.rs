use libluminate::all_off::{
    all_off_plan_request, luminate_all_off_plan_free, luminate_all_off_plan_skipped_persistent_at,
    luminate_all_off_plan_skipped_persistent_count, luminate_all_off_plan_target_at,
    luminate_all_off_plan_target_count, LuminateAllOffPlan,
};
use libluminate::status::{LuminateStatus, TargetId};

fn device(id: &str) -> TargetId {
    TargetId { device: id.to_owned(), surface: None, element: None, group: None }
}

#[test]
fn all_off_plan_requests_reject_null_device_and_output() {
    assert_eq!(all_off_plan_request(false, true), Err(LuminateStatus::NullPointer));
    assert_eq!(all_off_plan_request(true, false), Err(LuminateStatus::NullPointer));
    assert_eq!(all_off_plan_request(true, true), Ok(()));
}

#[test]
fn all_off_plan_accessors_handle_empty_plans_and_null() {
    let plan = LuminateAllOffPlan { targets: Vec::new(), skipped_persistent: Vec::new() };
    assert_eq!(luminate_all_off_plan_target_count(Some(&plan)), 0);
    assert!(luminate_all_off_plan_target_at(Some(&plan), 0).is_none());
    assert!(luminate_all_off_plan_target_at(None, 0).is_none());
    assert_eq!(luminate_all_off_plan_skipped_persistent_count(None), 0);
    assert!(luminate_all_off_plan_skipped_persistent_at(Some(&plan), 0).is_none());
    assert!(luminate_all_off_plan_skipped_persistent_at(None, 0).is_none());
    luminate_all_off_plan_free(Some(Box::new(plan)));
    luminate_all_off_plan_free(None);
}

#[test]
fn all_off_plan_accessors_preserve_order() {
    let plan = LuminateAllOffPlan {
        targets: vec![device("lamp"), device("strip")],
        skipped_persistent: vec![device("panel")],
    };
    assert_eq!(luminate_all_off_plan_target_count(Some(&plan)), 2);
    assert_eq!(luminate_all_off_plan_target_at(Some(&plan), 1), Some(&device("strip")));
    assert_eq!(luminate_all_off_plan_skipped_persistent_count(Some(&plan)), 1);
    assert_eq!(luminate_all_off_plan_skipped_persistent_at(Some(&plan), 0), Some(&device("panel")));
    assert!(luminate_all_off_plan_skipped_persistent_at(Some(&plan), 1).is_none());
}
