//! The parts of installing the helper that are text and decisions: the launch
//! daemon definition and the status line.
use vstd::prelude::*;
use crate::helper_client::HelperError;
use crate::helper_paths::{HELPER_SERVICE_LABEL, helper_stderr_log_path, helper_stdout_log_path};
use crate::helper_protocol::HelperStatus;

verus! {

/// Why the helper cannot be installed or removed.
#[derive(Clone, Copy, Debug, PartialEq, Eq, Structural)]
pub enum InstallError {
    RootRequired,
}

impl InstallError {
    pub fn message(&self) -> (r: String)
        ensures
            r@ == "helper installation requires root privileges"@,
    {
        "helper installation requires root privileges".to_owned()
    }
}

/// Installing and removing the helper need root.
pub fn ensure_root(is_root: bool) -> (r: Result<(), InstallError>)
    ensures
        r is Ok <==> is_root,
{
    if is_root {
        Ok(())
    } else {
        Err(InstallError::RootRequired)
    }
}

pub open spec fn bool_text(value: bool) -> Seq<char> {
    if value { "yes"@ } else { "no"@ }
}

pub fn bool_word(value: bool) -> (r: &'static str)
    ensures
        r@ == bool_text(value),
{
    if value { "yes" } else { "no" }
}

/// The helper's state as the status line words it.
pub open spec fn helper_state_spec(ping: Result<HelperStatus, HelperError>) -> Seq<char> {
    match ping {
        Ok(status) => "running via socket "@ + status.socket_path@,
        Err(err) => "not reachable ("@ + err.text() + ")"@,
    }
}

pub fn helper_state_text(ping: &Result<HelperStatus, HelperError>) -> (r: String)
    ensures
        r@ == helper_state_spec(*ping),
{
    match ping {
        Ok(status) => {
            let mut s = "running via socket ".to_owned();
            s.append(status.socket_path.as_str());
            s
        },
        Err(err) => {
            let mut s = "not reachable (".to_owned();
            let m = err.message();
            s.append(m.as_str());
            s.append(")");
            s
        },
    }
}

/// The status line: whether the binary, the launch daemon definition and the
/// socket exist, and the helper's state.
pub fn install_status_text(installed: bool, plist: bool, socket: bool, helper_state: &str) -> (r:
    String)
    ensures
        r@ == "installed_binary="@ + bool_text(installed) + " plist="@ + bool_text(plist)
            + " socket="@ + bool_text(socket) + " helper="@ + helper_state@,
{
    let mut s = "installed_binary=".to_owned();
    s.append(bool_word(installed));
    s.append(" plist=");
    s.append(bool_word(plist));
    s.append(" socket=");
    s.append(bool_word(socket));
    s.append(" helper=");
    s.append(helper_state);
    s
}

/// `t` occurs in `s`.
pub open spec fn contains_text(s: Seq<char>, t: Seq<char>) -> bool {
    exists|i: int| 0 <= i && i + t.len() <= s.len() && (#[trigger] s.skip(i)).take(t.len() as int) == t
}

proof fn lemma_contains_middle(a: Seq<char>, t: Seq<char>, b: Seq<char>)
    ensures
        contains_text(a + t + b, t),
{
    let s = a + t + b;
    assert(s.skip(a.len() as int).take(t.len() as int) =~= t);
}

/// The launch daemon definition of the helper.
pub open spec fn plist_spec(binary: Seq<char>, socket: Seq<char>) -> Seq<char> {
    "<?xml version=\"1.0\" encoding=\"UTF-8\"?>\n<!DOCTYPE plist PUBLIC \"-//Apple//DTD PLIST 1.0//EN\" \"http://www.apple.com/DTDs/PropertyList-1.0.dtd\">\n<plist version=\"1.0\">\n<dict>\n  <key>Label</key>\n  <string>"@
        + HELPER_SERVICE_LABEL@
        + "</string>\n  <key>ProgramArguments</key>\n  <array>\n"@ + program_arguments(binary, socket)
        + "\n  </array>\n  "@ + "<key>KeepAlive</key>\n  <true/>"@ + "\n  "@
        + "<key>RunAtLoad</key>\n  <true/>"@
        + "\n  <key>StandardOutPath</key>\n  <string>"@
        + "/Library/Application Support/AppleSiliconFanControl"@ + "/helper.stdout.log"@
        + "</string>\n  <key>StandardErrorPath</key>\n  <string>"@
        + "/Library/Application Support/AppleSiliconFanControl"@ + "/helper.stderr.log"@
        + "</string>\n</dict>\n</plist>\n"@
}

/// The helper's command line in the definition: the binary, then
/// `--socket` and the socket path.
pub open spec fn program_arguments(binary: Seq<char>, socket: Seq<char>) -> Seq<char> {
    "    <string>"@ + binary + "</string>\n    <string>--socket</string>\n    <string>"@ + socket
        + "</string>"@
}

/// The launch daemon definition keeps the helper alive, starts it when it is
/// loaded, and runs the given binary with `--socket` and the given socket.
pub proof fn lemma_plist_starts_helper(binary: Seq<char>, socket: Seq<char>)
    ensures
        contains_text(plist_spec(binary, socket), "<key>RunAtLoad</key>\n  <true/>"@),
        contains_text(plist_spec(binary, socket), "<key>KeepAlive</key>\n  <true/>"@),
        contains_text(
            plist_spec(binary, socket),
            "<string>"@ + binary + "</string>\n    <string>--socket</string>\n    <string>"@ + socket
                + "</string>"@,
        ),
        contains_text(plist_spec(binary, socket), "<string>"@ + HELPER_SERVICE_LABEL@ + "</string>"@),
{
    let head = "<?xml version=\"1.0\" encoding=\"UTF-8\"?>\n<!DOCTYPE plist PUBLIC \"-//Apple//DTD PLIST 1.0//EN\" \"http://www.apple.com/DTDs/PropertyList-1.0.dtd\">\n<plist version=\"1.0\">\n<dict>\n  <key>Label</key>\n  <string>"@;
    let s = plist_spec(binary, socket);
    let ka = "<key>KeepAlive</key>\n  <true/>"@;
    let rl = "<key>RunAtLoad</key>\n  <true/>"@;
    let pre_args = head + HELPER_SERVICE_LABEL@ + "</string>\n  <key>ProgramArguments</key>\n  <array>\n"@;
    let pre_ka = pre_args + program_arguments(binary, socket) + "\n  </array>\n  "@;
    let pre_rl = pre_ka + ka + "\n  "@;
    let tail = "\n  <key>StandardOutPath</key>\n  <string>"@
        + "/Library/Application Support/AppleSiliconFanControl"@ + "/helper.stdout.log"@
        + "</string>\n  <key>StandardErrorPath</key>\n  <string>"@
        + "/Library/Application Support/AppleSiliconFanControl"@ + "/helper.stderr.log"@
        + "</string>\n</dict>\n</plist>\n"@;
    assert(s =~= pre_rl + rl + tail);
    lemma_contains_middle(pre_rl, rl, tail);
    assert(s =~= pre_ka + ka + ("\n  "@ + rl + tail));
    lemma_contains_middle(pre_ka, ka, "\n  "@ + rl + tail);
    reveal_strlit("    <string>");
    let args = "<string>"@ + binary + "</string>\n    <string>--socket</string>\n    <string>"@ + socket
        + "</string>"@;
    assert(program_arguments(binary, socket) =~= "    "@ + args) by {
        reveal_strlit("    ");
        reveal_strlit("<string>");
    }
    assert(s =~= (pre_args + "    "@) + args + ("\n  </array>\n  "@ + ka + "\n  "@ + rl + tail));
    lemma_contains_middle(pre_args + "    "@, args, "\n  </array>\n  "@ + ka + "\n  "@ + rl + tail);
    let lab = "<string>"@ + HELPER_SERVICE_LABEL@ + "</string>"@;
    reveal_strlit("<?xml version=\"1.0\" encoding=\"UTF-8\"?>\n<!DOCTYPE plist PUBLIC \"-//Apple//DTD PLIST 1.0//EN\" \"http://www.apple.com/DTDs/PropertyList-1.0.dtd\">\n<plist version=\"1.0\">\n<dict>\n  <key>Label</key>\n  <string>");
    reveal_strlit("</string>\n  <key>ProgramArguments</key>\n  <array>\n");
    reveal_strlit("</string>");
    let head0 = head.take(head.len() - 8);
    assert(head =~= head0 + "<string>"@) by {
        reveal_strlit("<string>");
    }
    let rest = "</string>\n  <key>ProgramArguments</key>\n  <array>\n"@.skip(9);
    assert("</string>\n  <key>ProgramArguments</key>\n  <array>\n"@ =~= "</string>"@ + rest);
    assert(s =~= head0 + lab + (rest + program_arguments(binary, socket) + "\n  </array>\n  "@ + ka
        + "\n  "@ + rl + tail));
    lemma_contains_middle(head0, lab, rest + program_arguments(binary, socket) + "\n  </array>\n  "@
        + ka + "\n  "@ + rl + tail);
}

pub fn launch_daemon_plist(installed_binary: &str, socket_path: &str) -> (r: String)
    ensures
        r@ == plist_spec(installed_binary@, socket_path@),
        contains_text(r@, "<key>RunAtLoad</key>\n  <true/>"@),
        contains_text(r@, "<key>KeepAlive</key>\n  <true/>"@),
        contains_text(
            r@,
            "<string>"@ + installed_binary@ + "</string>\n    <string>--socket</string>\n    <string>"@
                + socket_path@ + "</string>"@,
        ),
{
    let mut s = "<?xml version=\"1.0\" encoding=\"UTF-8\"?>\n<!DOCTYPE plist PUBLIC \"-//Apple//DTD PLIST 1.0//EN\" \"http://www.apple.com/DTDs/PropertyList-1.0.dtd\">\n<plist version=\"1.0\">\n<dict>\n  <key>Label</key>\n  <string>".to_owned();
    s.append(HELPER_SERVICE_LABEL);
    s.append("</string>\n  <key>ProgramArguments</key>\n  <array>\n");
    s.append("    <string>");
    s.append(installed_binary);
    s.append("</string>\n    <string>--socket</string>\n    <string>");
    s.append(socket_path);
    s.append("</string>");
    s.append("\n  </array>\n  ");
    s.append("<key>KeepAlive</key>\n  <true/>");
    s.append("\n  ");
    s.append("<key>RunAtLoad</key>\n  <true/>");
    s.append("\n  <key>StandardOutPath</key>\n  <string>");
    let out_log = helper_stdout_log_path();
    s.append(out_log.as_str());
    s.append("</string>\n  <key>StandardErrorPath</key>\n  <string>");
    let err_log = helper_stderr_log_path();
    s.append(err_log.as_str());
    s.append("</string>\n</dict>\n</plist>\n");
    proof {
        assert(s@ =~= plist_spec(installed_binary@, socket_path@));
        lemma_plist_starts_helper(installed_binary@, socket_path@);
    }
    s
}

} // verus!
