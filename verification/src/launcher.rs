//! The command line of the window application: no argument opens the window,
//! one flag manages the helper.
use vstd::prelude::*;
use crate::text::str_eq;

verus! {

/// What the application was started to do.
#[derive(Clone, Copy, Debug, PartialEq, Eq, Structural)]
pub enum ManagementCommand {
    Gui,
    InstallHelper,
    UninstallHelper,
    HelperStatus,
}

/// The command for the given arguments (without the program name), or the
/// message that refuses them.
pub open spec fn command_spec(args: Seq<Seq<char>>) -> Result<ManagementCommand, Seq<char>> {
    if args.len() == 0 {
        Ok(ManagementCommand::Gui)
    } else if args.len() > 1 {
        Err("unsupported arguments starting with `"@ + args[0] + "`"@)
    } else if args[0] == "--install-helper"@ {
        Ok(ManagementCommand::InstallHelper)
    } else if args[0] == "--uninstall-helper"@ {
        Ok(ManagementCommand::UninstallHelper)
    } else if args[0] == "--helper-status"@ {
        Ok(ManagementCommand::HelperStatus)
    } else {
        Err("unknown argument `"@ + args[0] + "`"@)
    }
}

pub fn parse_management_command(args: &[String]) -> (r: Result<ManagementCommand, String>)
    ensures
        match command_spec(args@.map_values(|a: String| a@)) {
            Ok(c) => r == Ok::<ManagementCommand, String>(c),
            Err(m) => r matches Err(e) && e@ == m,
        },
{
    let ghost views = args@.map_values(|a: String| a@);
    if args.len() == 0 {
        return Ok(ManagementCommand::Gui);
    }
    assert(views[0] == args@[0]@);
    let first = args[0].as_str();
    if args.len() > 1 {
        let mut m = "unsupported arguments starting with `".to_owned();
        m.append(first);
        m.append("`");
        return Err(m);
    }
    if str_eq(first, "--install-helper") {
        Ok(ManagementCommand::InstallHelper)
    } else if str_eq(first, "--uninstall-helper") {
        Ok(ManagementCommand::UninstallHelper)
    } else if str_eq(first, "--helper-status") {
        Ok(ManagementCommand::HelperStatus)
    } else {
        let mut m = "unknown argument `".to_owned();
        m.append(first);
        m.append("`");
        Err(m)
    }
}

} // verus!
