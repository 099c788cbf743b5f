use apple_silicon_fan_control::launcher::{parse_management_command, ManagementCommand};

fn args(a: &[&str]) -> Vec<String> {
    a.iter().map(|s| s.to_string()).collect()
}

#[test]
fn management_commands() {
    assert_eq!(parse_management_command(&args(&[])), Ok(ManagementCommand::Gui));
    assert_eq!(parse_management_command(&args(&["--install-helper"])), Ok(ManagementCommand::InstallHelper));
    assert_eq!(parse_management_command(&args(&["--uninstall-helper"])), Ok(ManagementCommand::UninstallHelper));
    assert_eq!(parse_management_command(&args(&["--helper-status"])), Ok(ManagementCommand::HelperStatus));
    assert_eq!(
        parse_management_command(&args(&["--install-helper", "x"])),
        Err("unsupported arguments starting with `--install-helper`".to_owned())
    );
    assert_eq!(parse_management_command(&args(&["-v"])), Err("unknown argument `-v`".to_owned()));
}
