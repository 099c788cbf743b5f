use apple_silicon_fan_control::app_settings::{
    default_fan_label, default_refresh_interval_ms, default_target_selector, normalized_label,
    normalized_refresh_interval, sync_with_fans, FanSlot, ModeKind,
};
use apple_silicon_fan_control::config::ReduceOp;

#[test]
fn settings_defaults() {
    assert_eq!(default_fan_label(0), "Fan 1");
    assert_eq!(default_fan_label(9), "Fan 10");
    assert_eq!(default_refresh_interval_ms(), 1500);
    let t = default_target_selector();
    assert!(t.sensor.is_none());
    assert_eq!(t.group.as_deref(), Some("all_cpu_candidates"));
    assert_eq!(t.reduce, ReduceOp::Max);
    assert_eq!(normalized_refresh_interval(0), 1500);
    assert_eq!(normalized_refresh_interval(250), 250);
    assert_eq!(normalized_label("  "), "Fan");
    assert_eq!(normalized_label(" Left "), " Left ");
}

#[test]
fn sync_follows_the_fans_present() {
    let slots = vec![
        FanSlot { label: " ".to_owned(), kind: ModeKind::Auto },
        FanSlot { label: "Right".to_owned(), kind: ModeKind::Curve },
        FanSlot { label: "Extra".to_owned(), kind: ModeKind::Max },
    ];
    let two = sync_with_fans(&slots, 2);
    assert_eq!(two.len(), 2);
    assert_eq!(two[0].label, "Fan 1");
    assert!(!two[0].use_default_mode);
    assert_eq!(two[1].label, "Right");
    assert!(two[1].use_default_mode);
    let four = sync_with_fans(&slots[..1], 3);
    assert_eq!(four[2].label, "Fan 3");
    assert!(four[2].use_default_mode);
}

#[test]
fn syncing_twice_keeps_the_first_result() {
    let slots = vec![
        FanSlot { label: String::new(), kind: ModeKind::Fixed },
        FanSlot { label: "B".to_owned(), kind: ModeKind::Max },
    ];
    let once = sync_with_fans(&slots, 3);
    let again: Vec<FanSlot> = once
        .iter()
        .enumerate()
        .map(|(i, f)| FanSlot {
            label: f.label.clone(),
            kind: if f.use_default_mode { ModeKind::Adaptive } else { slots[i].kind },
        })
        .collect();
    let twice = sync_with_fans(&again, 3);
    for (a, b) in once.iter().zip(twice.iter()) {
        assert_eq!(a.label, b.label);
        assert!(!b.use_default_mode);
    }
}
