use apple_silicon_fan_control::sensor_profile::{profile_for_model, Confidence, SensorKind};

#[test]
fn known_model_has_a_profile() {
    let profile = profile_for_model("Mac15,10").unwrap();
    assert_eq!(profile.model_identifier, "Mac15,10");
    assert_eq!(profile.title, "MacBookPro20,4 / Apple M3 Max (14-core CPU)");
    assert_eq!(profile.sensors.len(), 14);
    assert_eq!(profile.notes.len(), 3);
    assert!(profile_for_model("Mac14,6").is_none());
}

#[test]
fn find_sensor_by_label_or_key() {
    let profile = profile_for_model("Mac15,10").unwrap();
    let by_label = profile.find_sensor("p_core_1").unwrap();
    assert_eq!(by_label.key, "Tf04");
    let by_key = profile.find_sensor("Te0P").unwrap();
    assert_eq!(by_key.label, "e_core_3");
    assert_eq!(by_key.confidence, Confidence::Low);
    assert!(profile.find_sensor("nope").is_none());
}

#[test]
fn groups() {
    let profile = profile_for_model("Mac15,10").unwrap();
    assert_eq!(profile.sensors_for_group("all_cpu_candidates").unwrap().len(), 14);
    let p = profile.sensors_for_group("cpu_p_candidates").unwrap();
    assert_eq!(p.len(), 10);
    assert!(p.iter().all(|s| s.kind == SensorKind::CpuPerformanceCandidate));
    let e = profile.sensors_for_group("cpu_e_candidates").unwrap();
    let keys: Vec<&str> = e.iter().map(|s| s.key).collect();
    assert_eq!(keys, vec!["Te05", "Te0L", "Te0P", "Te0S"]);
    assert!(profile.sensors_for_group("gpu").is_none());
    assert_eq!(
        profile.supported_groups(),
        vec!["all_cpu_candidates", "cpu_p_candidates", "cpu_e_candidates"]
    );
}

#[test]
fn kind_and_confidence_words() {
    assert_eq!(SensorKind::CpuPerformanceCandidate.label(), "P-core candidate");
    assert_eq!(SensorKind::CpuEfficiencyCandidate.label(), "E-core candidate");
    assert_eq!(Confidence::Medium.label(), "medium");
    assert_eq!(Confidence::Low.label(), "low");
}
