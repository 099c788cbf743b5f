use apple_silicon_fan_control::config::hysteresis_rpm;
use apple_silicon_fan_control::config::{
    check_curve_config, default_fan_index, default_sample_interval_ms, normalize_fan_indices,
    resolve_command_fan_indices, sorted_distinct, validate_target, ConfigError, ReduceOp,
    TargetSelector,
};

fn sensor_target(name: &str) -> TargetSelector {
    TargetSelector { sensor: Some(name.to_owned()), group: None, reduce: ReduceOp::Max }
}

#[test]
fn reduce_labels() {
    assert_eq!(ReduceOp::Min.label(), "min");
    assert_eq!(ReduceOp::Max.label(), "max");
    assert_eq!(ReduceOp::Average.label(), "average");
    assert_eq!(ReduceOp::default(), ReduceOp::Max);
}

#[test]
fn describe_targets() {
    assert_eq!(sensor_target("Tf04").describe(), "sensor `Tf04`");
    let group = TargetSelector {
        sensor: None,
        group: Some("cpu_p_candidates".to_owned()),
        reduce: ReduceOp::Average,
    };
    assert_eq!(group.describe(), "group `cpu_p_candidates` (average)");
    let none = TargetSelector { sensor: None, group: None, reduce: ReduceOp::Max };
    assert_eq!(none.describe(), "unknown target");
}

#[test]
fn target_needs_exactly_one_of_sensor_and_group() {
    assert!(validate_target(&sensor_target("Tf04")).is_ok());
    let both = TargetSelector {
        sensor: Some("Tf04".to_owned()),
        group: Some("cpu_p_candidates".to_owned()),
        reduce: ReduceOp::Max,
    };
    assert_eq!(validate_target(&both), Err(ConfigError::TargetNotExclusive));
    let none = TargetSelector { sensor: None, group: None, reduce: ReduceOp::Max };
    assert_eq!(validate_target(&none), Err(ConfigError::TargetNotExclusive));
    assert_eq!(
        ConfigError::TargetNotExclusive.message(),
        "config target must specify exactly one of `sensor` or `group`"
    );
}

#[test]
fn curve_config_checks_in_order() {
    let t = sensor_target("Tf04");
    assert_eq!(check_curve_config(&t, 3, 1000), Ok(()));
    assert_eq!(check_curve_config(&t, 0, 0), Err(ConfigError::NoCurvePoints));
    assert_eq!(check_curve_config(&t, 2, 0), Err(ConfigError::ZeroSampleInterval));
    assert_eq!(ConfigError::ZeroSampleInterval.message(), "sample_interval_ms must be greater than zero");
}

#[test]
fn fan_list_is_sorted_and_deduplicated() {
    assert_eq!(normalize_fan_indices(Some(0), &[2, 0, 2, 1]), vec![0, 1, 2]);
    assert_eq!(normalize_fan_indices(Some(3), &[]), vec![3]);
    assert_eq!(normalize_fan_indices(None, &[]), vec![0]);
    assert_eq!(sorted_distinct(&[5, 5, 5]), vec![5]);
    let once = normalize_fan_indices(None, &[9, 4, 4, 7]);
    assert_eq!(normalize_fan_indices(None, &once), once);
}

#[test]
fn config_defaults() {
    assert_eq!(default_fan_index(), 0);
    assert_eq!(default_sample_interval_ms(), 1500);
}

#[test]
fn command_fans() {
    assert_eq!(resolve_command_fan_indices(Some(5), &[1, 2]), vec![1, 2]);
    assert_eq!(resolve_command_fan_indices(Some(5), &[]), vec![5]);
    assert_eq!(resolve_command_fan_indices(None, &[]), vec![0]);
}

#[test]
fn hysteresis_holds_a_lower_speed_within_the_band() {
    assert_eq!(hysteresis_rpm(None, 3200, true), 3200);
    assert_eq!(hysteresis_rpm(Some(3200), 3000, true), 3200);
    assert_eq!(hysteresis_rpm(Some(3200), 2800, false), 2800);
    assert_eq!(hysteresis_rpm(Some(3200), 3600, true), 3600);
}

/// The last temperature and speed, with the band test done on floats here.
struct Held {
    last_temp_c: Option<f64>,
    last_rpm: Option<u32>,
}

impl Held {
    fn apply(&mut self, temp_c: f64, candidate_rpm: u32, hysteresis_c: f64) -> u32 {
        let within_band = self.last_temp_c.map(|t| temp_c + hysteresis_c >= t).unwrap_or(false);
        let rpm = hysteresis_rpm(self.last_rpm, candidate_rpm, within_band);
        self.last_temp_c = Some(temp_c);
        self.last_rpm = Some(rpm);
        rpm
    }
}

#[test]
fn hysteresis_holds_lower_rpm_briefly() {
    let mut state = Held { last_temp_c: None, last_rpm: None };
    assert_eq!(state.apply(70.0, 3200, 2.0), 3200);
    assert_eq!(state.apply(69.0, 3000, 2.0), 3200);
    assert_eq!(state.apply(66.5, 2800, 2.0), 2800);
}
