use apple_silicon_fan_control::control_backend::{BackendError, ControlBackend, PlanRoute};
use apple_silicon_fan_control::fan_control::{FanControlAction, FanControlPlan};
use apple_silicon_fan_control::helper_client::HelperClient;

#[test]
fn detection() {
    assert!(matches!(ControlBackend::detect(true, true), ControlBackend::DirectRoot));
    assert!(matches!(ControlBackend::detect(true, false), ControlBackend::DirectRoot));
    match ControlBackend::detect(false, true) {
        ControlBackend::Helper(c) => {
            assert_eq!(c.socket_path(), "/var/run/apple-silicon-fan-control-helper.sock")
        }
        _ => panic!("expected the helper"),
    }
    assert!(matches!(ControlBackend::detect(false, false), ControlBackend::Unavailable));
}

#[test]
fn labels_and_writability() {
    assert_eq!(ControlBackend::DirectRoot.label(), "direct root access");
    assert_eq!(
        ControlBackend::Helper(HelperClient::new("/tmp/h.sock".to_owned())).label(),
        "privileged helper (/tmp/h.sock)"
    );
    assert_eq!(ControlBackend::Unavailable.label(), "read-only (no root/helper)");
    assert!(ControlBackend::DirectRoot.can_write());
    assert!(!ControlBackend::Unavailable.can_write());
}

#[test]
fn routing_plans() {
    let empty = FanControlPlan::new(Vec::new());
    assert_eq!(ControlBackend::Unavailable.route_plan(&empty), Ok(PlanRoute::Skip));
    let plan = FanControlPlan::new(vec![FanControlAction::Auto { fan_index: 0 }]);
    assert_eq!(ControlBackend::DirectRoot.route_plan(&plan), Ok(PlanRoute::Direct));
    assert_eq!(ControlBackend::Helper(HelperClient::system()).route_plan(&plan), Ok(PlanRoute::Helper));
    assert_eq!(ControlBackend::Unavailable.route_plan(&plan), Err(BackendError::NoWriteBackend));
    assert_eq!(BackendError::NoWriteBackend.message(), "no write backend available");
}
