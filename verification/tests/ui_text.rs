use apple_silicon_fan_control::ui_text::{ helper_action_flag, helper_action_message, privileged_command_result, HelperAction, };
use apple_silicon_fan_control::app_settings::ModeKind;
use apple_silicon_fan_control::ui_text::fan_ui_mode_from_kind;
use apple_silicon_fan_control::config::{ReduceOp, TargetSelector};
use apple_silicon_fan_control::sensor_profile::profile_for_model;
use apple_silicon_fan_control::ui_text::{
    applescript_escape, apply_target_selection, display_sensor_label, fan_ui_mode_label,
    group_label, shell_quote, target_selection_label, target_selection_options,
    target_selection_token, FanUiMode, HelperUiStatus,
};

fn target(sensor: Option<&str>, group: Option<&str>, reduce: ReduceOp) -> TargetSelector {
    TargetSelector {
        sensor: sensor.map(|s| s.to_owned()),
        group: group.map(|s| s.to_owned()),
        reduce,
    }
}

#[test]
fn quoting() {
    assert_eq!(shell_quote("/Applications/My App"), "'/Applications/My App'");
    assert_eq!(shell_quote("it's"), "'it'\\''s'");
    assert_eq!(applescript_escape("say \"hi\" \\ bye"), "say \\\"hi\\\" \\\\ bye");
}

#[test]
fn sensor_labels() {
    assert_eq!(display_sensor_label("p_core_3"), "P-core 3");
    assert_eq!(display_sensor_label("e_core_1"), "E-core 1");
    assert_eq!(display_sensor_label("gpu_cluster_a"), "gpu cluster a");
}

#[test]
fn group_labels() {
    assert_eq!(group_label("all_cpu_candidates"), "Hottest CPU core");
    assert_eq!(group_label("cpu_p_candidates"), "Hottest P-core");
    assert_eq!(group_label("cpu_e_candidates"), "Hottest E-core");
    assert_eq!(group_label("other"), "Sensor group");
}

#[test]
fn tokens_and_labels() {
    let profile = profile_for_model("Mac15,10").unwrap();
    let g = target(None, Some("cpu_p_candidates"), ReduceOp::Max);
    assert_eq!(target_selection_token(&g), "group:cpu_p_candidates");
    assert_eq!(target_selection_label(&g, Some(&profile)), "Hottest P-core");
    let s = target(Some("Tf09"), None, ReduceOp::Max);
    assert_eq!(target_selection_token(&s), "sensor:Tf09");
    assert_eq!(target_selection_label(&s, Some(&profile)), "P-core 2 (Tf09)");
    assert_eq!(target_selection_label(&s, None), "Tf09");
    let none = target(None, None, ReduceOp::Max);
    assert_eq!(target_selection_token(&none), "group:all_cpu_candidates");
    assert_eq!(target_selection_label(&none, None), "Select component");
}

#[test]
fn options_list_groups_sensors_and_custom() {
    let profile = profile_for_model("Mac15,10").unwrap();
    let known = target(Some("p_core_1"), None, ReduceOp::Max);
    let opts = target_selection_options(Some(&profile), &known);
    assert_eq!(opts.len(), 17);
    assert_eq!(opts[0], ("group:all_cpu_candidates".to_owned(), "Hottest CPU core".to_owned()));
    assert_eq!(opts[3], ("sensor:e_core_1".to_owned(), "E-core 1 (Te05)".to_owned()));
    let custom = target(Some("TB0T"), None, ReduceOp::Max);
    let opts = target_selection_options(Some(&profile), &custom);
    assert_eq!(opts.len(), 18);
    assert_eq!(opts[17], ("sensor:TB0T".to_owned(), "Custom sensor (TB0T)".to_owned()));
    assert_eq!(target_selection_options(None, &custom).len(), 4);
}

#[test]
fn applying_a_choice_and_reading_its_token_back() {
    let mut t = target(Some("Tf04"), None, ReduceOp::Min);
    apply_target_selection(&mut t, "group:cpu_e_candidates");
    assert_eq!(t.group.as_deref(), Some("cpu_e_candidates"));
    assert!(t.sensor.is_none());
    assert_eq!(t.reduce, ReduceOp::Max);
    assert_eq!(target_selection_token(&t), "group:cpu_e_candidates");
    let mut u = target(None, Some("cpu_p_candidates"), ReduceOp::Average);
    apply_target_selection(&mut u, "sensor:Te0L");
    assert_eq!(u.sensor.as_deref(), Some("Te0L"));
    assert!(u.group.is_none());
    assert_eq!(u.reduce, ReduceOp::Average);
    assert_eq!(target_selection_token(&u), "sensor:Te0L");
    apply_target_selection(&mut u, "nonsense");
    assert_eq!(u.sensor.as_deref(), Some("Te0L"));
}

#[test]
fn modes_and_helper_summary() {
    assert_eq!(fan_ui_mode_label(FanUiMode::Adaptive), "Adaptive");
    assert_eq!(fan_ui_mode_label(FanUiMode::System), "System");
    assert_eq!(fan_ui_mode_label(FanUiMode::MaxAlways), "Max");
    let mut status = HelperUiStatus::default();
    assert!(!status.is_installed());
    assert_eq!(status.summary(), "Helper is not installed");
    status.socket_present = true;
    assert_eq!(status.summary(), "Helper is installed but not responding");
    status.reachable = true;
    assert_eq!(status.summary(), "Helper is running");
}

#[test]
fn privileged_command_outputs() {
    assert_eq!(privileged_command_result(true, " done\n", "warn"), Ok("done".to_owned()));
    assert_eq!(privileged_command_result(true, "\n", " warn \n"), Ok("warn".to_owned()));
    assert_eq!(privileged_command_result(true, "", ""), Ok(String::new()));
    assert_eq!(
        privileged_command_result(false, "x", "User canceled.\n"),
        Err("macOS privilege prompt failed: User canceled.".to_owned())
    );
    assert_eq!(helper_action_message(HelperAction::Install, "  "), "Helper installed");
    assert_eq!(helper_action_message(HelperAction::Uninstall, ""), "Helper removed");
    assert_eq!(helper_action_message(HelperAction::Install, " ok \n"), "ok");
    assert_eq!(helper_action_flag(HelperAction::Install), "--install-helper");
    assert_eq!(helper_action_flag(HelperAction::Uninstall), "--uninstall-helper");
}

#[test]
fn modes_from_saved_kinds() {
    assert_eq!(fan_ui_mode_from_kind(ModeKind::Auto), FanUiMode::System);
    assert_eq!(fan_ui_mode_from_kind(ModeKind::Max), FanUiMode::MaxAlways);
    assert_eq!(fan_ui_mode_from_kind(ModeKind::Curve), FanUiMode::Adaptive);
    assert_eq!(fan_ui_mode_from_kind(ModeKind::Adaptive), FanUiMode::Adaptive);
}
