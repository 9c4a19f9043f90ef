//! Hardware filter derivation. The platform's dual filter compares only the
//! upper sixteen bits of a 29-bit identifier against a code under a mask, so
//! it can check the version flag, the device type and the top three bits of
//! the device id; the exact device id is re-checked in software by the
//! dispatcher. The second filter of the pair passes every frame that has the
//! version flag set, the broadcast and service channel.

use vstd::prelude::*;
use crate::can_id::spec_pack_id;

verus! {

/// A dual code/mask filter over the upper sixteen bits of an extended
/// identifier, as plain values. The hardware layer programs these into the
/// controller's acceptance filter.
#[derive(Debug, Clone, Copy, PartialEq, Eq, Structural)]
pub struct FilterPair {
    pub code0: u16,
    pub mask0: u16,
    pub code1: u16,
    pub mask1: u16,
}

/// What one code/mask half accepts: the upper sixteen bits of the raw
/// identifier agree with the code on every bit the mask selects.
pub open spec fn filter_accepts(code: u16, mask: u16, raw: u32) -> bool {
    (((raw >> 13) & 0xFFFF) as u16) & mask == code & mask
}

impl FilterPair {
    /// A frame reaches software when either half of the dual filter accepts it.
    pub open spec fn accepts(self, raw: u32) -> bool {
        filter_accepts(self.code0, self.mask0, raw)
            || filter_accepts(self.code1, self.mask1, raw)
    }
}

/// The filter a node with the given local device type and id derives: the
/// first half matches version flag, device type and the device id's top
/// three bits; the second half matches the version flag alone.
pub open spec fn spec_filter_for(device_type: u8, device_id: u8) -> FilterPair {
    FilterPair {
        code0: ((((1u32 << 28)
            | (((device_type & 0x3F) as u32) << 16)
            | (((device_id & 0xE0) as u32) << 8)) >> 13) & 0xFFFF) as u16,
        mask0: ((((1u32 << 28) | (0x3Fu32 << 16) | (0x7u32 << 13)) >> 13) & 0xFFFF) as u16,
        code1: (((1u32 << 28) >> 13) & 0xFFFF) as u16,
        mask1: (((1u32 << 28) >> 13) & 0xFFFF) as u16,
    }
}

/// The filter for a node with the given local device type and id.
///
/// The first half accepts frames whose version flag is set, whose device
/// type equals the local type and whose device id agrees with the local id
/// on its top three bits. The second half accepts every frame whose version
/// flag is set.
pub fn make_filter(device_type: u8, device_id: u8) -> (f: FilterPair)
    ensures
        f == spec_filter_for(device_type, device_id),
{
    let full_id: u32 = (1u32 << 28)
        | (((device_type & 0x3F) as u32) << 16)
        | (((device_id & 0xE0) as u32) << 8);
    let full_mask: u32 = (1u32 << 28) | (0x3Fu32 << 16) | (0x7u32 << 13);

    let code1: u16 = ((full_id >> 13) & 0xFFFF) as u16;
    let mask1: u16 = ((full_mask >> 13) & 0xFFFF) as u16;

    let full_id2: u32 = 1u32 << 28;
    let code2: u16 = ((full_id2 >> 13) & 0xFFFF) as u16;
    let mask2: u16 = code2;

    FilterPair { code0: code1, mask0: mask1, code1: code2, mask1: mask2 }
}

/// What the first filter half lets through: exactly the frames with the
/// version flag set, the local device type, and a device id that matches
/// the local one on its top three bits — for every field combination.
pub proof fn lemma_filter_unicast(
    local_type: u8,
    local_id: u8,
    is_ng: bool,
    group: u8,
    device_type: u8,
    device_id: u8,
    code: u8,
)
    ensures
        ({
            let f = spec_filter_for(local_type, local_id);
            let raw = spec_pack_id(is_ng, group, device_type, device_id, code);
            filter_accepts(f.code0, f.mask0, raw) <==> (is_ng
                && (device_type & 0x3F) == (local_type & 0x3F)
                && (device_id >> 5) == (local_id >> 5))
        }),
{
    let lt = local_type;
    let li = local_id;
    let g = group;
    let t = device_type;
    let i = device_id;
    let c = code;
    assert({
        let fcode = ((((1u32 << 28) | (((lt & 0x3F) as u32) << 16) | (((li & 0xE0) as u32) << 8))
            >> 13) & 0xFFFF) as u16;
        let fmask = ((((1u32 << 28) | (0x3Fu32 << 16) | (0x7u32 << 13)) >> 13) & 0xFFFF) as u16;
        let raw = (if is_ng { 1u32 << 28 } else { 0u32 }) | (((g & 0x3F) as u32) << 22)
            | (((t & 0x3F) as u32) << 16) | ((i as u32) << 8) | (c as u32);
        ((((raw >> 13) & 0xFFFF) as u16) & fmask == fcode & fmask) <==> (is_ng
            && (t & 0x3F) == (lt & 0x3F)
            && (i >> 5) == (li >> 5))
    }) by (bit_vector);
}

/// What the second filter half lets through: exactly the frames with the
/// version flag set, whatever their type, id and message code.
pub proof fn lemma_filter_broadcast(is_ng: bool, group: u8, device_type: u8, device_id: u8, code: u8)
    ensures
        ({
            let bcode = (((1u32 << 28) >> 13) & 0xFFFF) as u16;
            let raw = spec_pack_id(is_ng, group, device_type, device_id, code);
            filter_accepts(bcode, bcode, raw) <==> is_ng
        }),
{
    let g = group;
    let t = device_type;
    let i = device_id;
    let c = code;
    assert({
        let bcode = (((1u32 << 28) >> 13) & 0xFFFF) as u16;
        let raw = (if is_ng { 1u32 << 28 } else { 0u32 }) | (((g & 0x3F) as u32) << 22)
            | (((t & 0x3F) as u32) << 16) | ((i as u32) << 8) | (c as u32);
        ((((raw >> 13) & 0xFFFF) as u16) & bcode == bcode & bcode) <==> is_ng
    }) by (bit_vector);
}

/// Every frame the protocol itself addresses — version flag set — passes
/// every node's filter, through its broadcast half; no frame meant for a
/// node is lost to its hardware filter.
pub proof fn lemma_filter_accepts_addressed(
    local_type: u8,
    local_id: u8,
    group: u8,
    device_type: u8,
    device_id: u8,
    code: u8,
)
    ensures
        spec_filter_for(local_type, local_id).accepts(
            spec_pack_id(true, group, device_type, device_id, code),
        ),
{
    lemma_filter_broadcast(true, group, device_type, device_id, code);
}

} // verus!
