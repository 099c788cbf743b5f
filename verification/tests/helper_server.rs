use apple_silicon_fan_control::fan_control::{FanControlAction, FanControlPlan};
use apple_silicon_fan_control::helper_protocol::HelperRequest;
use apple_silicon_fan_control::helper_server::{
    check_request_line, plan_response, request_action, status_response, RequestError, ServerAction,
};

#[test]
fn requests_map_to_actions() {
    assert!(matches!(request_action(HelperRequest::Ping), ServerAction::ReportStatus));
    assert!(matches!(request_action(HelperRequest::ReadStatus), ServerAction::ReportStatus));
    let plan = FanControlPlan::new(vec![FanControlAction::Auto { fan_index: 1 }]);
    match request_action(HelperRequest::ApplyPlan { plan }) {
        ServerAction::ApplyPlan(p) => assert_eq!(p.actions, vec![FanControlAction::Auto { fan_index: 1 }]),
        ServerAction::ReportStatus => panic!("expected a plan"),
    }
}

#[test]
fn answers() {
    let s = status_response("0.1.0".to_owned(), "/tmp/h.sock".to_owned());
    assert!(s.ok);
    assert_eq!(s.message, "helper is running");
    let st = s.status.unwrap();
    assert_eq!((st.version.as_str(), st.socket_path.as_str()), ("0.1.0", "/tmp/h.sock"));
    let ok = plan_response(Ok(()));
    assert!(ok.ok && ok.message == "plan applied" && ok.status.is_none());
    let failed = plan_response(Err("failed to write `F0Md`".to_owned()));
    assert!(!failed.ok);
    assert_eq!(failed.message, "failed to write `F0Md`");
}

#[test]
fn request_lines() {
    assert_eq!(check_request_line(" {\"type\":\"ping\"}\n"), Ok("{\"type\":\"ping\"}".to_owned()));
    assert_eq!(check_request_line("\r\n"), Err(RequestError::EmptyRequest));
    assert_eq!(RequestError::EmptyRequest.message(), "helper request was empty");
}
