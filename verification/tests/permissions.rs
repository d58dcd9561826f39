use netchat_bridge::permissions::{
    get_power_level_constraint, is_allowed, Action, PowerLevelConstraint,
};

#[test]
fn minimum_without_maximum_admits_from_the_minimum_up() {
    let constraint = PowerLevelConstraint::new(100, None);
    assert!(constraint.is_allowed(100));
    assert!(!constraint.is_allowed(99));
    assert!(constraint.is_allowed(i64::MAX));
    assert!(!constraint.is_allowed(i64::MIN));
}

#[test]
fn maximum_equal_to_minimum_admits_that_level_only() {
    let constraint = PowerLevelConstraint::new(50, Some(50));
    assert!(constraint.is_allowed(50));
    assert!(!constraint.is_allowed(51));
    assert!(!constraint.is_allowed(49));
}

#[test]
fn minimum_and_maximum_admit_the_levels_between() {
    let constraint = PowerLevelConstraint::new(10, Some(20));
    assert!(constraint.is_allowed(10));
    assert!(constraint.is_allowed(15));
    assert!(constraint.is_allowed(20));
    assert!(!constraint.is_allowed(9));
    assert!(!constraint.is_allowed(21));
}

#[test]
fn maximum_below_minimum_admits_nothing() {
    let constraint = PowerLevelConstraint::new(20, Some(10));
    assert!(!constraint.is_allowed(10));
    assert!(!constraint.is_allowed(15));
    assert!(!constraint.is_allowed(20));
}

#[test]
fn both_actions_ask_for_the_highest_tier() {
    for action in [Action::BridgeCreate, Action::BridgeDestroy] {
        let constraint = get_power_level_constraint(action);
        assert_eq!(constraint.minimum, 100);
        assert_eq!(constraint.maximum, None);
    }
}

#[test]
fn verdict_tells_denial_from_failed_lookup() {
    assert_eq!(is_allowed(Ok(Some(100)), Action::BridgeCreate), Ok(true));
    assert_eq!(is_allowed(Ok(Some(99)), Action::BridgeCreate), Ok(false));
    assert_eq!(is_allowed(Ok(Some(0)), Action::BridgeDestroy), Ok(false));
    assert_eq!(
        is_allowed(Ok(None), Action::BridgeCreate),
        Err("member somehow does not exist".to_string())
    );
    assert_eq!(
        is_allowed(Err("timed out".to_string()), Action::BridgeDestroy),
        Err("unable to get member: timed out".to_string())
    );
}
