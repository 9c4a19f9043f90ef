//! Address codec: a 29-bit extended CAN identifier packs the protocol
//! version flag, a (reserved) group, the device type, the device id and a
//! message-type code at fixed bit offsets.

use vstd::prelude::*;

verus! {

/// Message-type code space of the protocol. The code space is open: codes
/// that no variant claims decode to `Unknown` with the raw code kept, so
/// decoding is total and loses nothing.
#[derive(Debug, Clone, Copy, PartialEq, Eq, Structural)]
pub enum CanMessageType {
    Available,
    Ping,
    Restart,
    Uptime,
    RequestParameter,
    DeviceIdType,
    DeviceUid0,
    DeviceUid1,
    CustomString,
    Baudrate,
    HwRev,
    RelaisMode,
    ExtensionMode,
    Relais,
    Rollershutter,
    Nightlight,
    DeviceError,
    FlashStart,
    FlashSelect,
    FlashErase,
    FlashWrite,
    FlashRead,
    FlashVerify,
    FlashProgress,
    UpdateSilence,
    Unknown(u8),
}

impl CanMessageType {
    /// The wire code of a message type.
    pub open spec fn spec_code(self) -> u8 {
        match self {
            CanMessageType::Available => 0x01,
            CanMessageType::Ping => 0x02,
            CanMessageType::Restart => 0x03,
            CanMessageType::Uptime => 0x10,
            CanMessageType::RequestParameter => 0x11,
            CanMessageType::DeviceIdType => 0x12,
            CanMessageType::DeviceUid0 => 0x13,
            CanMessageType::DeviceUid1 => 0x14,
            CanMessageType::CustomString => 0x15,
            CanMessageType::Baudrate => 0x16,
            CanMessageType::HwRev => 0x17,
            CanMessageType::RelaisMode => 0x20,
            CanMessageType::ExtensionMode => 0x21,
            CanMessageType::Relais => 0x30,
            CanMessageType::Rollershutter => 0x31,
            CanMessageType::Nightlight => 0x32,
            CanMessageType::DeviceError => 0x40,
            CanMessageType::FlashStart => 0x50,
            CanMessageType::FlashSelect => 0x51,
            CanMessageType::FlashErase => 0x52,
            CanMessageType::FlashWrite => 0x53,
            CanMessageType::FlashRead => 0x54,
            CanMessageType::FlashVerify => 0x55,
            CanMessageType::FlashProgress => 0x56,
            CanMessageType::UpdateSilence => 0x57,
            CanMessageType::Unknown(code) => code,
        }
    }

    /// The message type a wire code decodes to; total on all 256 codes.
    pub open spec fn spec_from_code(code: u8) -> CanMessageType {
        match code {
            0x01 => CanMessageType::Available,
            0x02 => CanMessageType::Ping,
            0x03 => CanMessageType::Restart,
            0x10 => CanMessageType::Uptime,
            0x11 => CanMessageType::RequestParameter,
            0x12 => CanMessageType::DeviceIdType,
            0x13 => CanMessageType::DeviceUid0,
            0x14 => CanMessageType::DeviceUid1,
            0x15 => CanMessageType::CustomString,
            0x16 => CanMessageType::Baudrate,
            0x17 => CanMessageType::HwRev,
            0x20 => CanMessageType::RelaisMode,
            0x21 => CanMessageType::ExtensionMode,
            0x30 => CanMessageType::Relais,
            0x31 => CanMessageType::Rollershutter,
            0x32 => CanMessageType::Nightlight,
            0x40 => CanMessageType::DeviceError,
            0x50 => CanMessageType::FlashStart,
            0x51 => CanMessageType::FlashSelect,
            0x52 => CanMessageType::FlashErase,
            0x53 => CanMessageType::FlashWrite,
            0x54 => CanMessageType::FlashRead,
            0x55 => CanMessageType::FlashVerify,
            0x56 => CanMessageType::FlashProgress,
            0x57 => CanMessageType::UpdateSilence,
            _ => CanMessageType::Unknown(code),
        }
    }

    /// A message type is canonical when an `Unknown` variant carries only a
    /// code that no named variant claims; exactly these values come out of
    /// decoding, and only for these the code round-trips.
    pub open spec fn wf(self) -> bool {
        self matches CanMessageType::Unknown(code) ==> Self::spec_from_code(code) == self
    }

    #[verifier::when_used_as_spec(spec_code)]
    pub fn code(self) -> (code: u8)
        ensures
            code == self.spec_code(),
    {
        match self {
            CanMessageType::Available => 0x01,
            CanMessageType::Ping => 0x02,
            CanMessageType::Restart => 0x03,
            CanMessageType::Uptime => 0x10,
            CanMessageType::RequestParameter => 0x11,
            CanMessageType::DeviceIdType => 0x12,
            CanMessageType::DeviceUid0 => 0x13,
            CanMessageType::DeviceUid1 => 0x14,
            CanMessageType::CustomString => 0x15,
            CanMessageType::Baudrate => 0x16,
            CanMessageType::HwRev => 0x17,
            CanMessageType::RelaisMode => 0x20,
            CanMessageType::ExtensionMode => 0x21,
            CanMessageType::Relais => 0x30,
            CanMessageType::Rollershutter => 0x31,
            CanMessageType::Nightlight => 0x32,
            CanMessageType::DeviceError => 0x40,
            CanMessageType::FlashStart => 0x50,
            CanMessageType::FlashSelect => 0x51,
            CanMessageType::FlashErase => 0x52,
            CanMessageType::FlashWrite => 0x53,
            CanMessageType::FlashRead => 0x54,
            CanMessageType::FlashVerify => 0x55,
            CanMessageType::FlashProgress => 0x56,
            CanMessageType::UpdateSilence => 0x57,
            CanMessageType::Unknown(code) => code,
        }
    }

    #[verifier::when_used_as_spec(spec_from_code)]
    pub fn from_code(code: u8) -> (t: CanMessageType)
        ensures
            t == Self::spec_from_code(code),
    {
        match code {
            0x01 => CanMessageType::Available,
            0x02 => CanMessageType::Ping,
            0x03 => CanMessageType::Restart,
            0x10 => CanMessageType::Uptime,
            0x11 => CanMessageType::RequestParameter,
            0x12 => CanMessageType::DeviceIdType,
            0x13 => CanMessageType::DeviceUid0,
            0x14 => CanMessageType::DeviceUid1,
            0x15 => CanMessageType::CustomString,
            0x16 => CanMessageType::Baudrate,
            0x17 => CanMessageType::HwRev,
            0x20 => CanMessageType::RelaisMode,
            0x21 => CanMessageType::ExtensionMode,
            0x30 => CanMessageType::Relais,
            0x31 => CanMessageType::Rollershutter,
            0x32 => CanMessageType::Nightlight,
            0x40 => CanMessageType::DeviceError,
            0x50 => CanMessageType::FlashStart,
            0x51 => CanMessageType::FlashSelect,
            0x52 => CanMessageType::FlashErase,
            0x53 => CanMessageType::FlashWrite,
            0x54 => CanMessageType::FlashRead,
            0x55 => CanMessageType::FlashVerify,
            0x56 => CanMessageType::FlashProgress,
            0x57 => CanMessageType::UpdateSilence,
            _ => CanMessageType::Unknown(code),
        }
    }
}

/// A wire code always decodes to a message type that encodes back to the
/// same code: the code space loses nothing.
pub proof fn lemma_code_decode_encode(code: u8)
    ensures
        CanMessageType::spec_from_code(code).spec_code() == code,
        CanMessageType::spec_from_code(code).wf(),
{
}

/// A canonical message type survives the trip through its wire code.
pub proof fn lemma_code_encode_decode(t: CanMessageType)
    requires
        t.wf(),
    ensures
        CanMessageType::spec_from_code(t.spec_code()) == t,
{
}

/// The structured form of a 29-bit extended CAN identifier.
#[derive(Debug, Clone, Copy, PartialEq, Eq, Structural)]
pub struct CanId {
    /// Protocol version flag, bit 28. Always set on identifiers this node builds.
    pub is_ng: bool,
    /// Group, bits 27..=22; reserved, zero for now.
    pub group: u8,
    /// Device type, bits 21..=16; six bits.
    pub device_type: u8,
    /// Device id, bits 15..=8; zero is the broadcast id.
    pub device_id: u8,
    /// Message type, bits 7..=0.
    pub msg_type: CanMessageType,
}

/// The raw 29-bit identifier that a structured id packs to.
pub open spec fn spec_pack_id(is_ng: bool, group: u8, device_type: u8, device_id: u8, code: u8) -> u32 {
    (if is_ng { 1u32 << 28 } else { 0u32 })
        | (((group & 0x3F) as u32) << 22)
        | (((device_type & 0x3F) as u32) << 16)
        | ((device_id as u32) << 8)
        | (code as u32)
}

/// Field extraction out of a raw identifier, the inverse of `spec_pack_id`.
pub open spec fn spec_raw_is_ng(raw: u32) -> bool {
    (raw >> 28) & 0x1 != 0
}

pub open spec fn spec_raw_group(raw: u32) -> u8 {
    ((raw >> 22) & 0x3F) as u8
}

pub open spec fn spec_raw_device_type(raw: u32) -> u8 {
    ((raw >> 16) & 0x3F) as u8
}

pub open spec fn spec_raw_device_id(raw: u32) -> u8 {
    ((raw >> 8) & 0xFF) as u8
}

pub open spec fn spec_raw_code(raw: u32) -> u8 {
    (raw & 0xFF) as u8
}

impl CanId {
    /// A well-formed id keeps its six-bit fields in range and its message
    /// type canonical; `new` and `from_raw` establish this.
    pub open spec fn wf(self) -> bool {
        &&& self.group < 0x40
        &&& self.device_type < 0x40
        &&& self.msg_type.wf()
    }

    /// The raw identifier this id packs to.
    pub open spec fn spec_raw(self) -> u32 {
        spec_pack_id(self.is_ng, self.group, self.device_type, self.device_id, self.msg_type.spec_code())
    }

    /// The structured form of a raw identifier.
    pub open spec fn spec_from_raw(raw: u32) -> CanId {
        CanId {
            is_ng: spec_raw_is_ng(raw),
            group: spec_raw_group(raw),
            device_type: spec_raw_device_type(raw),
            device_id: spec_raw_device_id(raw),
            msg_type: CanMessageType::spec_from_code(spec_raw_code(raw)),
        }
    }

    /// An identifier for an outgoing message: version flag set, group zero,
    /// the device type masked to its six bits.
    pub fn new(device_type: u8, device_id: u8, msg_type: CanMessageType) -> (id: CanId)
        ensures
            id.is_ng,
            id.group == 0,
            id.device_type == device_type & 0x3F,
            id.device_id == device_id,
            id.msg_type == msg_type,
            msg_type.wf() ==> id.wf(),
    {
        proof {
            assert(device_type & 0x3F < 0x40) by (bit_vector);
        }
        CanId {
            is_ng: true,
            group: 0,
            device_type: device_type & 0x3F,
            device_id,
            msg_type,
        }
    }

    /// Packs the fields into the raw 29-bit identifier.
    pub fn to_raw(self) -> (raw: u32)
        ensures
            raw == self.spec_raw(),
            raw <= 0x1FFF_FFFF,
    {
        let code = self.msg_type.code();
        let raw = (if self.is_ng { 1u32 << 28 } else { 0u32 })
            | (((self.group & 0x3F) as u32) << 22)
            | (((self.device_type & 0x3F) as u32) << 16)
            | ((self.device_id as u32) << 8)
            | (code as u32);
        proof {
            let ng = self.is_ng;
            let g = self.group;
            let t = self.device_type;
            let i = self.device_id;
            assert((if ng { 1u32 << 28 } else { 0u32 } | (((g & 0x3F) as u32) << 22)
                | (((t & 0x3F) as u32) << 16) | ((i as u32) << 8) | (code as u32))
                <= 0x1FFF_FFFF) by (bit_vector);
        }
        raw
    }

    /// Unpacks a raw identifier; total, unrecognised message-type codes
    /// come back as `Unknown`.
    pub fn from_raw(raw: u32) -> (id: CanId)
        ensures
            id == Self::spec_from_raw(raw),
            id.wf(),
    {
        proof {
            assert((raw >> 22) & 0x3F < 0x40) by (bit_vector);
            assert((raw >> 16) & 0x3F < 0x40) by (bit_vector);
            assert((raw >> 8) & 0xFF < 0x100) by (bit_vector);
            assert(raw & 0xFF < 0x100) by (bit_vector);
            lemma_code_decode_encode((raw & 0xFF) as u8);
        }
        CanId {
            is_ng: (raw >> 28) & 0x1 != 0,
            group: ((raw >> 22) & 0x3F) as u8,
            device_type: ((raw >> 16) & 0x3F) as u8,
            device_id: ((raw >> 8) & 0xFF) as u8,
            msg_type: CanMessageType::from_code((raw & 0xFF) as u8),
        }
    }
}

/// Codec round trip at the bit level: unpacking a packed identifier gives
/// back the version flag, a zero group, the six-bit device type, the device
/// id and the message-type code, for every combination.
pub proof fn lemma_pack_unpack(device_type: u8, device_id: u8, code: u8)
    requires
        device_type < 0x40,
    ensures
        spec_raw_is_ng(spec_pack_id(true, 0, device_type, device_id, code)),
        spec_raw_group(spec_pack_id(true, 0, device_type, device_id, code)) == 0,
        spec_raw_device_type(spec_pack_id(true, 0, device_type, device_id, code)) == device_type,
        spec_raw_device_id(spec_pack_id(true, 0, device_type, device_id, code)) == device_id,
        spec_raw_code(spec_pack_id(true, 0, device_type, device_id, code)) == code,
{
    let t = device_type;
    let i = device_id;
    let c = code;
    let raw = spec_pack_id(true, 0, t, i, c);
    assert(t < 0x40 ==> {
        let r = (1u32 << 28) | (((0u8 & 0x3F) as u32) << 22) | (((t & 0x3F) as u32) << 16)
            | ((i as u32) << 8) | (c as u32);
        &&& (r >> 28) & 0x1 != 0
        &&& (r >> 22) & 0x3F == 0
        &&& (r >> 16) & 0x3F == t
        &&& (r >> 8) & 0xFF == i
        &&& r & 0xFF == c
    }) by (bit_vector);
}

/// Codec round trip, the structured form: an identifier built by `new`
/// decodes to itself — version flag set, group zero, the device type masked
/// to six bits, the device id and the message type unchanged.
pub proof fn lemma_codec_round_trip(device_type: u8, device_id: u8, msg_type: CanMessageType)
    requires
        msg_type.wf(),
    ensures
        ({
            let id = CanId {
                is_ng: true,
                group: 0,
                device_type: (device_type & 0x3F) as u8,
                device_id,
                msg_type,
            };
            CanId::spec_from_raw(id.spec_raw()) == id
        }),
{
    assert(device_type & 0x3F < 0x40) by (bit_vector);
    lemma_pack_unpack((device_type & 0x3F) as u8, device_id, msg_type.spec_code());
    lemma_code_encode_decode(msg_type);
}


/// Declares `embedded_can::ExtendedId`, the bus library's 29-bit identifier
/// type, so that identifiers can be handed to and taken from that crate.
#[verifier::external_type_specification]
#[verifier::external_body]
pub struct ExExtendedId(embedded_can::ExtendedId);

/// The raw 29-bit value an `embedded_can::ExtendedId` holds.
pub uninterp spec fn ext_id_raw(id: embedded_can::ExtendedId) -> u32;

/// Relies on embedded_can::ExtendedId::new: it accepts exactly the raw
/// values up to `0x1FFF_FFFF` and keeps the accepted value.
pub assume_specification [ embedded_can::ExtendedId::new ](raw: u32) -> (r: Option<
    embedded_can::ExtendedId,
>)
    ensures
        r is Some <==> raw <= 0x1FFF_FFFF,
        r matches Some(id) ==> ext_id_raw(id) == raw,
;

/// Relies on embedded_can::ExtendedId::as_raw: it returns the raw value
/// the identifier holds.
pub assume_specification [ embedded_can::ExtendedId::as_raw ](id: &embedded_can::ExtendedId) -> (r:
    u32)
    ensures
        r == ext_id_raw(*id),
;

impl CanId {
    /// The bus library's form of this identifier. Every packed identifier
    /// fits the 29-bit range, so the conversion cannot fail.
    pub fn to_extended_id(self) -> (r: embedded_can::ExtendedId)
        ensures
            ext_id_raw(r) == self.spec_raw(),
    {
        let raw = self.to_raw();
        embedded_can::ExtendedId::new(raw).unwrap()
    }

    /// The structured form of a bus-library identifier; total, as decoding
    /// is.
    pub fn from_extended_id(id: &embedded_can::ExtendedId) -> (r: CanId)
        ensures
            r == Self::spec_from_raw(ext_id_raw(*id)),
            r.wf(),
    {
        Self::from_raw(id.as_raw())
    }
}

} // verus!
