use apple_silicon_fan_control::fan_control::FanControlPlan;
use apple_silicon_fan_control::helper_client::{
    check_response_line, response_timeout, HelperClient, HelperError, HELPER_APPLY_PLAN_TIMEOUT,
    HELPER_REQUEST_TIMEOUT,
};
use apple_silicon_fan_control::helper_protocol::{HelperRequest, HelperResponse, HelperStatus};

#[test]
fn ping_uses_short_timeout() {
    assert_eq!(response_timeout(&HelperRequest::Ping), HELPER_REQUEST_TIMEOUT);
}

#[test]
fn apply_plan_uses_extended_timeout() {
    let request = HelperRequest::ApplyPlan {
        plan: FanControlPlan::new(Vec::new()),
    };

    assert_eq!(response_timeout(&request), HELPER_APPLY_PLAN_TIMEOUT);
}

#[test]
fn timeouts_are_three_and_fifteen_seconds() {
    assert_eq!(response_timeout(&HelperRequest::ReadStatus), 3);
    assert_eq!(HELPER_APPLY_PLAN_TIMEOUT, 15);
}

fn status() -> HelperStatus {
    HelperStatus {
        version: "0.1.0".to_owned(),
        socket_path: "/var/run/x.sock".to_owned(),
    }
}

#[test]
fn system_client_uses_the_helper_socket() {
    let client = HelperClient::system();
    assert_eq!(client.socket_path(), "/var/run/apple-silicon-fan-control-helper.sock");
    let other = HelperClient::new("/tmp/other.sock".to_owned());
    assert_eq!(other.socket_path(), "/tmp/other.sock");
}

#[test]
fn ping_reply_returns_status() {
    let reply = HelperResponse::ok_with_status("helper is running".to_owned(), status());
    let got = HelperClient::ping_reply(reply).ok().unwrap();
    assert_eq!(got.socket_path, "/var/run/x.sock");
    assert_eq!(got.version, "0.1.0");
}

#[test]
fn ping_reply_without_status_is_an_error() {
    let reply = HelperResponse::ok("plan applied".to_owned());
    match HelperClient::ping_reply(reply) {
        Err(e) => {
            assert!(matches!(e, HelperError::PingWithoutStatus));
            assert_eq!(e.message(), "helper ping succeeded but returned no status");
        }
        Ok(_) => panic!("expected an error"),
    }
    let reply = HelperResponse::ok("x".to_owned());
    match HelperClient::read_status_reply(reply) {
        Err(e) => assert_eq!(e.message(), "helper returned no status payload"),
        Ok(_) => panic!("expected an error"),
    }
}

#[test]
fn failed_reply_carries_the_message() {
    let reply = HelperResponse::err("failed to write `F0Tg`".to_owned());
    assert!(!reply.ok);
    match HelperClient::apply_plan_reply(reply) {
        Err(e) => assert_eq!(e.message(), "failed to write `F0Tg`"),
        Ok(()) => panic!("expected an error"),
    }
    assert!(HelperClient::apply_plan_reply(HelperResponse::ok("plan applied".to_owned())).is_ok());
    let failed = HelperResponse::err("nope".to_owned());
    assert!(matches!(HelperClient::read_status_reply(failed), Err(HelperError::Rejected { .. })));
}

#[test]
fn response_line_is_trimmed() {
    assert_eq!(check_response_line("  {\"ok\":true}\r\n").ok().unwrap(), "{\"ok\":true}");
    match check_response_line(" \n") {
        Err(e) => assert_eq!(e.message(), "helper returned an empty response"),
        Ok(_) => panic!("expected an error"),
    }
}

#[test]
fn response_constructors() {
    let ok = HelperResponse::ok("fine".to_owned());
    assert!(ok.ok && ok.status.is_none() && ok.message == "fine");
    let with = HelperResponse::ok_with_status("helper is running".to_owned(), status());
    assert!(with.ok && with.status.is_some());
    let err = HelperResponse::err("bad".to_owned());
    assert!(!err.ok && err.status.is_none());
}
