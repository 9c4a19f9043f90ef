use cancomponents_core::can_id::CanId;
use cancomponents_core::can_id::CanMessageType;
use cancomponents_core::config::Key;
use cancomponents_core::device_message::IdTypeMsg;
use cancomponents_core::error::{Component, ErrorCode, ErrorReport, Severity};
use cancomponents_core::error::rate_limit_allows;
use cancomponents_core::relais_message::{RelaisMessage, RelaisMsg, RelaisState};
use cancomponents_core::update::UpdateErrorCode;

#[test]
fn command_encodes_six_bytes_with_bank_over_top_duration_byte() {
    let msg = RelaisMessage { num: 5, state: RelaisState::Down, duration_ms: 0x00030D40, bank: 1 };
    let bytes = msg.to_bytes();
    assert_eq!(bytes, [5, 2, 0x40, 0x0D, 0x03, 1]);
}

#[test]
fn command_round_trip_keeps_num_state_bank() {
    let msg = RelaisMessage { num: 9, state: RelaisState::Up, duration_ms: 2000, bank: 1 };
    let back = RelaisMessage::from_bytes(&msg.to_bytes()).unwrap();
    assert_eq!(back.num, 9);
    assert_eq!(back.state, RelaisState::Up);
    assert_eq!(back.bank, 1);
    // the duration comes back with its top byte replaced by the bank
    assert_eq!(back.duration_ms, 2000 | (1 << 24));
}

#[test]
fn command_round_trip_is_exact_for_24_bit_durations_with_zero_bank() {
    let msg = RelaisMessage { num: 3, state: RelaisState::On, duration_ms: 0x00FF_FFFF, bank: 0 };
    let back = RelaisMessage::from_bytes(&msg.to_bytes()).unwrap();
    assert_eq!(back, msg);
}

#[test]
fn command_round_trip_truncates_oversized_duration() {
    let msg = RelaisMessage { num: 0, state: RelaisState::Off, duration_ms: 0xAABB_CCDD, bank: 0 };
    let back = RelaisMessage::from_bytes(&msg.to_bytes()).unwrap();
    assert_eq!(back.duration_ms, 0x00BB_CCDD);
}

#[test]
fn short_or_invalid_command_payloads_are_rejected() {
    assert!(RelaisMessage::from_bytes(&[]).is_err());
    assert!(RelaisMessage::from_bytes(&[1]).is_err());
    assert!(RelaisMessage::from_bytes(&[1, 1, 0, 0, 0]).is_err());
    // state code 4 is invalid
    assert!(RelaisMessage::from_bytes(&[1, 4, 0, 0, 0, 0]).is_err());
    assert!(RelaisMessage::from_bytes(&[1, 3, 0, 0, 0, 0]).is_ok());
}

#[test]
fn state_codes_cover_exactly_zero_to_three() {
    assert_eq!(RelaisState::from_code(0), Some(RelaisState::Off));
    assert_eq!(RelaisState::from_code(1), Some(RelaisState::Up));
    assert_eq!(RelaisState::from_code(2), Some(RelaisState::Down));
    assert_eq!(RelaisState::from_code(3), Some(RelaisState::On));
    for code in 4..=255u8 {
        assert_eq!(RelaisState::from_code(code), None);
    }
    assert_eq!(RelaisState::On.code(), 3);
}

#[test]
fn short_form_command_parses_index_flag_and_time() {
    assert_eq!(RelaisMsg::parse(&[]), None);
    assert_eq!(RelaisMsg::parse(&[7]), None);
    assert_eq!(RelaisMsg::parse(&[7, 1]), Some((7, true, None)));
    assert_eq!(RelaisMsg::parse(&[7, 0, 0xFF]), Some((7, false, None)));
    assert_eq!(
        RelaisMsg::parse(&[7, 2, 0x40, 0x0D, 0x03]),
        Some((7, true, Some(0x030D40)))
    );
}

#[test]
fn id_type_message_needs_exactly_two_bytes() {
    assert_eq!(IdTypeMsg::parse(&[9, 4]), Some((9, 4)));
    assert_eq!(IdTypeMsg::parse(&[9]), None);
    assert_eq!(IdTypeMsg::parse(&[9, 4, 0]), None);
}

#[test]
fn error_report_encodes_eight_bytes() {
    let report = ErrorReport::new(
        Component::Relais,
        ErrorCode::InvalidData,
        Severity::Warning,
        7,
        &[0xAA, 0xBB],
    );
    assert_eq!(report.to_bytes(), [6, 1, 1, 7, 0xAA, 0xBB, 0, 0]);
}

#[test]
fn error_report_round_trip() {
    let report = ErrorReport::new(
        Component::Update,
        ErrorCode::InvalidData,
        Severity::CriticalError,
        2,
        &[1, 2, 3, 4],
    );
    let back = ErrorReport::from_bytes(&report.to_bytes()).unwrap();
    assert_eq!(back, report);
    assert!(ErrorReport::from_bytes(&[0; 7]).is_err());
    assert!(ErrorReport::from_bytes(&[0; 9]).is_err());
}

#[test]
fn severity_inbound_codes_two_and_three_trade_places() {
    assert_eq!(Severity::from_code(2), Severity::RepeatingError);
    assert_eq!(Severity::from_code(3), Severity::RecoverableError);
    assert_eq!(Severity::RecoverableError.code(), 2);
    assert_eq!(Severity::RepeatingError.code(), 3);
    assert_eq!(Severity::from_code(99), Severity::Unknown);
}

#[test]
fn component_and_error_codes_decode_totally() {
    assert_eq!(Component::from_code(6), Component::Relais);
    assert_eq!(Component::from_code(0), Component::Unknown);
    assert_eq!(Component::from_code(200), Component::Unknown);
    assert_eq!(ErrorCode::from_code(1), ErrorCode::InvalidData);
    assert_eq!(ErrorCode::from_code(2), ErrorCode::Unknown);
}

#[test]
fn rate_limit_suppresses_repeats_within_the_interval() {
    assert!(rate_limit_allows(None, 0));
    assert!(!rate_limit_allows(Some(5000), 5999));
    assert!(rate_limit_allows(Some(5000), 6000));
    // a clock that appears to run backwards suppresses as well
    assert!(!rate_limit_allows(Some(5000), 4000));
}

#[test]
fn config_keys_have_stable_codes() {
    assert_eq!(Key::RelaisMode.code(), 1);
    assert_eq!(Key::ExtensionMode.code(), 2);
    assert_eq!(Key::DeviceId.code(), 3);
    assert_eq!(Key::DeviceType.code(), 4);
    assert_eq!(Key::CustomString.code(), 5);
    assert_eq!(Key::Baudrate.code(), 6);
    assert_eq!(Key::HardwareRevision.code(), 7);
}

#[test]
fn update_error_codes_round_trip() {
    for code in 0..=5u8 {
        assert_eq!(UpdateErrorCode::from_code(code).code(), code);
    }
    assert_eq!(UpdateErrorCode::from_code(77), UpdateErrorCode::Unknown);
}

#[test]
fn relay_command_identifier_uses_relay_message_code() {
    let id = CanId::new(0x08, 0xAA, CanMessageType::Available);
    assert_eq!(id.to_raw() & 0xFF, 0x01);
}
