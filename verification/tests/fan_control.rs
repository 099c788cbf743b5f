use apple_silicon_fan_control::fan_control::{FanControlAction, FanControlPlan};

fn set(fan_index: usize, rpm: u32) -> FanControlAction {
    FanControlAction::SetTargetRpm { fan_index, rpm }
}

fn auto(fan_index: usize) -> FanControlAction {
    FanControlAction::Auto { fan_index }
}

#[test]
fn normalized_keeps_last_action_per_fan_in_fan_order() {
    let plan = FanControlPlan::new(vec![set(2, 3000), auto(0), set(0, 1500), set(2, 4000), auto(1)]);
    assert_eq!(plan.normalized_actions(), vec![set(0, 1500), auto(1), set(2, 4000)]);
}

#[test]
fn normalizing_twice_changes_nothing() {
    let plan = FanControlPlan::new(vec![set(3, 2000), auto(1), set(3, 2500)]);
    let once = plan.normalized_actions();
    let twice = FanControlPlan::new(once.clone()).normalized_actions();
    assert_eq!(once, twice);
}

#[test]
fn manual_fans_are_those_whose_last_action_sets_a_speed() {
    let plan = FanControlPlan::new(vec![set(1, 2000), auto(1), set(0, 1800), set(4, 2200)]);
    assert_eq!(plan.manual_fan_indices(), vec![0, 4]);
    let auto_only = FanControlPlan::new(vec![auto(0), auto(1)]);
    assert!(auto_only.manual_fan_indices().is_empty());
}

#[test]
fn fan_index_of_each_action() {
    assert_eq!(set(7, 1).fan_index(), 7);
    assert_eq!(auto(3).fan_index(), 3);
}

#[test]
fn empty_plan() {
    let plan = FanControlPlan::new(Vec::new());
    assert!(plan.is_empty());
    assert!(plan.normalized_actions().is_empty());
    let schedule = plan.direct_schedule();
    assert!(schedule.writes.is_empty());
    assert!(schedule.unlock_fans.is_empty());
    assert!(!schedule.release_test_mode);
}

#[test]
fn schedule_unlocks_manual_fans_and_keeps_test_mode() {
    let plan = FanControlPlan::new(vec![set(1, 2400), auto(0)]);
    assert!(!plan.is_empty());
    let schedule = plan.direct_schedule();
    assert_eq!(schedule.unlock_fans, vec![1]);
    assert_eq!(schedule.writes, vec![auto(0), set(1, 2400)]);
    assert!(!schedule.release_test_mode);
}

#[test]
fn schedule_of_auto_only_plan_releases_test_mode() {
    let plan = FanControlPlan::new(vec![auto(1), auto(0), auto(1)]);
    let schedule = plan.direct_schedule();
    assert!(schedule.unlock_fans.is_empty());
    assert_eq!(schedule.writes, vec![auto(0), auto(1)]);
    assert!(schedule.release_test_mode);
}

#[test]
fn plan_builders() {
    let p = FanControlPlan::set_target_rpms(&[0, 1], &[1300, 2600]);
    assert_eq!(p.actions, vec![set(0, 1300), set(1, 2600)]);
    let a = FanControlPlan::auto_for(&[2, 0]);
    assert_eq!(a.actions, vec![auto(2), auto(0)]);
}
