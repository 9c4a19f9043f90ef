use cancomponents_core::can_id::{CanId, CanMessageType};

#[test]
fn test_device_init() {
    let can_id = CanId::new(0x01, 0x01, CanMessageType::Nightlight);
    let can_id_u32: u32 = can_id.to_raw();
    let can_id_back = CanId::from_raw(can_id_u32);
    assert!(can_id_back == can_id);

    let can_id_ext = can_id.to_extended_id();
    assert!(can_id_ext.as_raw() == can_id_u32);

    let can_id_ext_back = CanId::from_extended_id(&can_id_ext);
    assert!(can_id_ext_back == can_id);
}

#[test]
fn encode_packs_fields_at_fixed_offsets() {
    let id = CanId::new(0x12, 0x34, CanMessageType::Relais);
    let raw = id.to_raw();
    assert_eq!(raw, (1 << 28) | (0x12 << 16) | (0x34 << 8) | 0x30);
}

#[test]
fn decode_unpacks_fields_at_fixed_offsets() {
    let raw: u32 = (1 << 28) | (0x07 << 16) | (0xAB << 8) | 0x31;
    let id = CanId::from_raw(raw);
    assert!(id.is_ng);
    assert_eq!(id.group, 0);
    assert_eq!(id.device_type, 0x07);
    assert_eq!(id.device_id, 0xAB);
    assert_eq!(id.msg_type, CanMessageType::Rollershutter);
}

#[test]
fn new_masks_device_type_to_six_bits() {
    let id = CanId::new(0xFF, 0x01, CanMessageType::Ping);
    assert_eq!(id.device_type, 0x3F);
    assert!(id.is_ng);
    assert_eq!(id.group, 0);
}

#[test]
fn codec_round_trip_all_message_codes() {
    for msg in 0..=255u8 {
        for dtype in [0u8, 1, 0x3F, 0x40, 0xFF] {
            let id = CanId::new(dtype, 0x55, CanMessageType::from_code(msg));
            let back = CanId::from_raw(id.to_raw());
            assert!(back.is_ng);
            assert_eq!(back.group, 0);
            assert_eq!(back.device_type, dtype & 0x3F);
            assert_eq!(back.device_id, 0x55);
            assert_eq!(back.msg_type.code(), msg);
        }
    }
}

#[test]
fn message_code_round_trip() {
    for code in 0..=255u8 {
        assert_eq!(CanMessageType::from_code(code).code(), code);
    }
    assert_eq!(CanMessageType::from_code(0x30), CanMessageType::Relais);
    assert_eq!(CanMessageType::from_code(0x31), CanMessageType::Rollershutter);
    assert_eq!(CanMessageType::from_code(0xEE), CanMessageType::Unknown(0xEE));
}

#[test]
fn unknown_code_decodes_to_unknown_variant() {
    let raw: u32 = (1 << 28) | 0xEE;
    let id = CanId::from_raw(raw);
    assert_eq!(id.msg_type, CanMessageType::Unknown(0xEE));
    assert_eq!(id.to_raw(), raw);
}

#[test]
fn decode_is_total_on_arbitrary_identifiers() {
    for raw in [0u32, 0x1FFF_FFFF, 0x12345678 & 0x1FFF_FFFF, 0x0800_0000] {
        let id = CanId::from_raw(raw);
        assert!(id.device_type < 0x40);
        assert!(id.group < 0x40);
    }
    let no_flag = CanId::from_raw(0x0012_3430);
    assert!(!no_flag.is_ng);
}
