//! Where the privileged helper is installed and how it is reached.
use vstd::prelude::*;

verus! {

/// The launchd label of the helper service.
pub const HELPER_SERVICE_LABEL: &'static str = "com.denisqsound.apple-silicon-fan-control.helper";

pub fn helper_install_dir() -> (r: String)
    ensures
        r@ == "/Library/Application Support/AppleSiliconFanControl"@,
{
    "/Library/Application Support/AppleSiliconFanControl".to_owned()
}

pub fn helper_socket_path() -> (r: String)
    ensures
        r@ == "/var/run/apple-silicon-fan-control-helper.sock"@,
{
    "/var/run/apple-silicon-fan-control-helper.sock".to_owned()
}

/// The installed helper binary, inside the install directory.
pub fn helper_binary_path() -> (r: String)
    ensures
        r@ == "/Library/Application Support/AppleSiliconFanControl"@ + "/apple-silicon-fan-control-helper"@,
{
    let mut p = helper_install_dir();
    p.append("/apple-silicon-fan-control-helper");
    p
}

/// The launch daemon property list, named after the service label.
pub fn helper_launch_daemon_plist_path() -> (r: String)
    ensures
        r@ == "/Library/LaunchDaemons/"@ + HELPER_SERVICE_LABEL@ + ".plist"@,
{
    let mut p = "/Library/LaunchDaemons/".to_owned();
    p.append(HELPER_SERVICE_LABEL);
    p.append(".plist");
    p
}

/// The helper's standard output log, inside the install directory.
pub fn helper_stdout_log_path() -> (r: String)
    ensures
        r@ == "/Library/Application Support/AppleSiliconFanControl"@ + "/helper.stdout.log"@,
{
    let mut p = helper_install_dir();
    p.append("/helper.stdout.log");
    p
}

/// The helper's standard error log, inside the install directory.
pub fn helper_stderr_log_path() -> (r: String)
    ensures
        r@ == "/Library/Application Support/AppleSiliconFanControl"@ + "/helper.stderr.log"@,
{
    let mut p = helper_install_dir();
    p.append("/helper.stderr.log");
    p
}

} // verus!
