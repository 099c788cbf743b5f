use apple_silicon_fan_control::config::{ReduceOp, TargetSelector};
use apple_silicon_fan_control::runtime::{
    resolve_profile_sensors, resolve_sensor, resolve_target_sensors, ResolveError,
};
use apple_silicon_fan_control::sensor_profile::profile_for_model;

fn target(sensor: Option<&str>, group: Option<&str>) -> TargetSelector {
    TargetSelector {
        sensor: sensor.map(|s| s.to_owned()),
        group: group.map(|s| s.to_owned()),
        reduce: ReduceOp::Max,
    }
}

#[test]
fn sensor_by_label_resolves_to_profile_key() {
    let profile = profile_for_model("Mac15,10").unwrap();
    let r = resolve_sensor("p_core_2", Some(&profile)).ok().unwrap();
    assert_eq!((r.label.as_str(), r.key.as_str()), ("p_core_2", "Tf09"));
}

#[test]
fn raw_four_byte_key_resolves_to_itself() {
    let r = resolve_sensor("TB0T", None).ok().unwrap();
    assert_eq!((r.label.as_str(), r.key.as_str()), ("TB0T", "TB0T"));
    match resolve_sensor("cpu", None) {
        Err(e) => assert_eq!(
            e.message(),
            "sensor `cpu` was not found in the built-in profile and is not a raw 4-character SMC key"
        ),
        Ok(_) => panic!("expected an error"),
    }
    // four characters but five bytes
    assert!(resolve_sensor("Té0T", None).is_err());
}

#[test]
fn group_targets() {
    let profile = profile_for_model("Mac15,10").unwrap();
    let e = resolve_target_sensors(&target(None, Some("cpu_e_candidates")), Some(&profile))
        .ok()
        .unwrap();
    let labels: Vec<&str> = e.iter().map(|s| s.label.as_str()).collect();
    assert_eq!(labels, vec!["e_core_1", "e_core_2", "e_core_3", "e_core_4"]);
    let one = resolve_target_sensors(&target(Some("Tf4B"), None), Some(&profile)).ok().unwrap();
    assert_eq!(one.len(), 1);
    assert_eq!(one[0].label, "p_core_10");
}

#[test]
fn group_errors() {
    let profile = profile_for_model("Mac15,10").unwrap();
    match resolve_target_sensors(&target(None, None), Some(&profile)) {
        Err(e) => {
            assert!(matches!(e, ResolveError::MissingGroup));
            assert_eq!(e.message(), "config target group is missing");
        }
        Ok(_) => panic!("expected an error"),
    }
    match resolve_target_sensors(&target(None, Some("cpu_p_candidates")), None) {
        Err(e) => assert_eq!(
            e.message(),
            "no built-in profile available for group `cpu_p_candidates`; use a raw 4-character sensor key instead"
        ),
        Ok(_) => panic!("expected an error"),
    }
    match resolve_target_sensors(&target(None, Some("gpu")), Some(&profile)) {
        Err(e) => assert_eq!(e.message(), "unknown profile group `gpu`"),
        Ok(_) => panic!("expected an error"),
    }
}

#[test]
fn profile_sensors_in_order() {
    let profile = profile_for_model("Mac15,10").unwrap();
    let all = resolve_profile_sensors(&profile);
    assert_eq!(all.len(), 14);
    assert_eq!(all[0].key, "Te05");
    assert_eq!(all[13].label, "p_core_10");
}
