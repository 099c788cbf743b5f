use apple_silicon_fan_control::smc_controller::{unlock_decision, UnlockDecision};
use apple_silicon_fan_control::smc_controller::{
    clamp_target_rpm, encode_target_rpm, fan_key, fan_mode_label, fans_ready_for_manual,
    key_bytes, u8_like, unlock_timeout_message, RpmEncoding, SmcError, SmcNumber,
};

#[test]
fn fan_keys() {
    assert_eq!(fan_key(0, "Md"), "F0Md");
    assert_eq!(fan_key(12, "Tg"), "F12Tg");
}

#[test]
fn key_bytes_needs_four_bytes() {
    assert_eq!(key_bytes("F0Md").ok().unwrap(), *b"F0Md");
    match key_bytes("F10Md") {
        Err(SmcError::KeyLength { key }) => assert_eq!(key, "F10Md"),
        _ => panic!("expected a length error"),
    }
    assert!(key_bytes("é0Md").is_err());
    assert_eq!(key_bytes("é0M").ok().unwrap(), [0xc3, 0xa9, b'0', b'M']);
    assert_eq!(
        SmcError::key_length_message("F10Md"),
        "SMC key `F10Md` must be exactly 4 ASCII characters"
    );
}

#[test]
fn mode_labels() {
    assert_eq!(fan_mode_label(0), "auto");
    assert_eq!(fan_mode_label(1), "manual");
    assert_eq!(fan_mode_label(3), "system");
    assert_eq!(fan_mode_label(2), "unknown");
}

#[test]
fn clamping() {
    assert_eq!(clamp_target_rpm(500, 1200, 6000), 1200);
    assert_eq!(clamp_target_rpm(7000, 1200, 6000), 6000);
    assert_eq!(clamp_target_rpm(3000, 1200, 6000), 3000);
    // a maximum below the minimum is raised to it
    assert_eq!(clamp_target_rpm(3000, 1200, 1000), 1200);
}

#[test]
fn eight_bit_values() {
    assert_eq!(u8_like(Some(SmcNumber::U8(3))).ok(), Some(3));
    assert_eq!(u8_like(Some(SmcNumber::I8(1))).ok(), Some(1));
    assert!(matches!(u8_like(Some(SmcNumber::I8(-1))), Err(SmcError::NotEightBit(SmcNumber::I8(-1)))));
    assert_eq!(u8_like(Some(SmcNumber::Bool(true))).ok(), Some(1));
    assert_eq!(u8_like(Some(SmcNumber::U16(255))).ok(), Some(255));
    assert!(u8_like(Some(SmcNumber::U16(256))).is_err());
    assert_eq!(u8_like(Some(SmcNumber::I16(7))).ok(), Some(7));
    assert!(u8_like(Some(SmcNumber::U32(1))).is_err());
    assert!(matches!(u8_like(None), Err(SmcError::UnsupportedType)));
}

#[test]
fn rpm_encodings() {
    match encode_target_rpm(Some(SmcNumber::U16(0)), 2600) {
        Ok(RpmEncoding::Bytes(b)) => assert_eq!(b, 2600u16.to_le_bytes().to_vec()),
        _ => panic!("expected bytes"),
    }
    match encode_target_rpm(Some(SmcNumber::I32(0)), 20000) {
        Ok(RpmEncoding::Bytes(b)) => assert_eq!(b, 20000i32.to_le_bytes().to_vec()),
        _ => panic!("expected bytes"),
    }
    assert!(matches!(encode_target_rpm(Some(SmcNumber::F32), 1200), Ok(RpmEncoding::Float32)));
    assert!(matches!(
        encode_target_rpm(Some(SmcNumber::U16(0)), 20001),
        Err(SmcError::RpmOutOfRange { rpm: 20001 })
    ));
    assert!(matches!(
        encode_target_rpm(Some(SmcNumber::U8(0)), 100),
        Err(SmcError::UnsupportedNumeric(SmcNumber::U8(0)))
    ));
    assert!(matches!(encode_target_rpm(None, 100), Err(SmcError::UnsupportedType)));
}

#[test]
fn manual_readiness() {
    assert!(fans_ready_for_manual(&[Some(0), Some(1)]));
    assert!(fans_ready_for_manual(&[]));
    assert!(!fans_ready_for_manual(&[Some(0), Some(3)]));
    assert!(!fans_ready_for_manual(&[None]));
}

#[test]
fn unlock_timeout_text() {
    assert_eq!(
        unlock_timeout_message(&[0, 1], &[Some(3), None]),
        "manual fan control unlock timed out; fan modes remained [0:3, 1:255]"
    );
    assert_eq!(
        unlock_timeout_message(&[], &[]),
        "manual fan control unlock timed out; fan modes remained []"
    );
}

#[test]
fn unlock_decisions() {
    assert_eq!(unlock_decision(&[Some(0)], true), UnlockDecision::GiveUp);
    assert_eq!(unlock_decision(&[Some(0), Some(1)], false), UnlockDecision::Proceed);
    assert_eq!(unlock_decision(&[Some(3)], false), UnlockDecision::Wait);
}
