use apple_silicon_fan_control::helper_client::HelperError;
use apple_silicon_fan_control::helper_install::{
    bool_word, ensure_root, helper_state_text, install_status_text, launch_daemon_plist,
    InstallError,
};
use apple_silicon_fan_control::helper_paths::{
    helper_binary_path, helper_install_dir, helper_launch_daemon_plist_path, helper_socket_path,
    helper_stderr_log_path, helper_stdout_log_path, HELPER_SERVICE_LABEL,
};
use apple_silicon_fan_control::helper_protocol::HelperStatus;

#[test]
fn paths() {
    assert_eq!(helper_install_dir(), "/Library/Application Support/AppleSiliconFanControl");
    assert_eq!(helper_socket_path(), "/var/run/apple-silicon-fan-control-helper.sock");
    assert_eq!(
        helper_binary_path(),
        "/Library/Application Support/AppleSiliconFanControl/apple-silicon-fan-control-helper"
    );
    assert_eq!(
        helper_launch_daemon_plist_path(),
        "/Library/LaunchDaemons/com.denisqsound.apple-silicon-fan-control.helper.plist"
    );
    assert_eq!(
        helper_stdout_log_path(),
        "/Library/Application Support/AppleSiliconFanControl/helper.stdout.log"
    );
    assert_eq!(
        helper_stderr_log_path(),
        "/Library/Application Support/AppleSiliconFanControl/helper.stderr.log"
    );
    assert_eq!(HELPER_SERVICE_LABEL, "com.denisqsound.apple-silicon-fan-control.helper");
}

#[test]
fn root_is_required() {
    assert!(ensure_root(true).is_ok());
    assert_eq!(ensure_root(false), Err(InstallError::RootRequired));
    assert_eq!(InstallError::RootRequired.message(), "helper installation requires root privileges");
}

#[test]
fn status_line() {
    assert_eq!(bool_word(true), "yes");
    assert_eq!(bool_word(false), "no");
    let running = Ok(HelperStatus { version: "1".to_owned(), socket_path: "/s.sock".to_owned() });
    assert_eq!(helper_state_text(&running), "running via socket /s.sock");
    let down: Result<HelperStatus, HelperError> =
        Err(HelperError::Transport { message: "connection refused".to_owned() });
    let state = helper_state_text(&down);
    assert_eq!(state, "not reachable (connection refused)");
    assert_eq!(
        install_status_text(true, false, true, &state),
        "installed_binary=yes plist=no socket=yes helper=not reachable (connection refused)"
    );
}

#[test]
fn plist_names_binary_socket_and_logs() {
    let text = launch_daemon_plist("/opt/helper", "/tmp/h.sock");
    assert!(text.starts_with("<?xml version=\"1.0\" encoding=\"UTF-8\"?>\n"));
    assert!(text.contains("  <string>com.denisqsound.apple-silicon-fan-control.helper</string>\n"));
    assert!(text.contains("    <string>/opt/helper</string>\n    <string>--socket</string>\n    <string>/tmp/h.sock</string>\n"));
    assert!(text.contains("<string>/Library/Application Support/AppleSiliconFanControl/helper.stderr.log</string>"));
    assert!(text.ends_with("</dict>\n</plist>\n"));
}
