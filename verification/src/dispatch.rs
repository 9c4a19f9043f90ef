//! Message dispatcher: decodes an inbound frame's identifier, applies the
//! addressing rule — unicast to this node or broadcast — and routes the
//! payload by message type. Relay and rollershutter commands are parsed and
//! enqueued on the command channel; every other message type is handed on
//! to its external collaborator. A frame for another node, or a malformed
//! relay payload, is dropped silently: on a shared bus both are expected
//! noise, not faults, and the protocol is fire-and-forget.

use vstd::prelude::*;
use crate::can_id::{CanId, CanMessageType};
use crate::channel::{spec_try_send, CommandQueue};
use crate::filter::{make_filter, spec_filter_for, FilterPair};
use crate::relais_message::RelaisMessage;

verus! {

/// Device id that every node accepts in addition to its own.
pub const BROADCAST_DEVICE_ID: u8 = 0;

/// What the dispatcher decides for one frame.
#[derive(Debug, Clone, Copy, PartialEq, Eq, Structural)]
pub enum DispatchAction {
    /// The frame addresses another node: dropped silently.
    NotAddressed,
    /// A relay or rollershutter payload that does not parse: dropped
    /// silently, no reply either way.
    Malformed,
    /// A parsed relay command, to go to the scheduling engine.
    Relay(RelaisMessage),
    /// Any other message type: handed to the collaborator that owns it.
    Forward(CanMessageType),
}

/// The dispatcher's decision for a frame: decode the identifier, drop what
/// addresses neither this node nor everyone, parse and enqueue relay
/// commands, forward the rest.
pub open spec fn spec_dispatch(raw_id: u32, data: Seq<u8>, local_device_id: u8) -> DispatchAction {
    let id = CanId::spec_from_raw(raw_id);
    if id.device_id != local_device_id && id.device_id != BROADCAST_DEVICE_ID {
        DispatchAction::NotAddressed
    } else if id.msg_type is Relais || id.msg_type is Rollershutter {
        match RelaisMessage::spec_from_bytes(data) {
            Some(msg) => DispatchAction::Relay(msg),
            None => DispatchAction::Malformed,
        }
    } else {
        DispatchAction::Forward(id.msg_type)
    }
}

/// Decides what to do with one received frame, given this node's device id.
/// Pure: enqueueing and forwarding are the caller's step.
pub fn dispatch(raw_id: u32, data: &[u8], local_device_id: u8) -> (action: DispatchAction)
    ensures
        action == spec_dispatch(raw_id, data@, local_device_id),
{
    let id = CanId::from_raw(raw_id);
    if id.device_id != local_device_id && id.device_id != BROADCAST_DEVICE_ID {
        return DispatchAction::NotAddressed;
    }
    match id.msg_type {
        CanMessageType::Relais | CanMessageType::Rollershutter => {
            match RelaisMessage::from_bytes(data) {
                Ok(msg) => DispatchAction::Relay(msg),
                Err(()) => DispatchAction::Malformed,
            }
        },
        _ => DispatchAction::Forward(id.msg_type),
    }
}

/// Dispatches one frame and, for a parsed relay command, offers it to the
/// command channel. Returns the decision and whether a command was
/// enqueued; a refusal by the full channel leaves the command with the
/// caller, which suspends and offers it again — backpressure, not loss.
pub fn handle_frame(
    raw_id: u32,
    data: &[u8],
    local_device_id: u8,
    queue: &mut CommandQueue,
) -> (r: (DispatchAction, bool))
    requires
        old(queue).wf(),
    ensures
        final(queue).wf(),
        r.0 == spec_dispatch(raw_id, data@, local_device_id),
        r.0 matches DispatchAction::Relay(msg) ==> (final(queue)@, r.1) == spec_try_send(
            old(queue)@,
            msg,
        ),
        !(r.0 is Relay) ==> final(queue)@ == old(queue)@ && !r.1,
{
    let action = dispatch(raw_id, data, local_device_id);
    let enqueued: bool = match action {
        DispatchAction::Relay(msg) => queue.try_send(msg),
        _ => false,
    };
    (action, enqueued)
}

/// Unaddressed frames are dropped: a frame whose device id is neither this
/// node's nor the broadcast id never yields a relay command, is never
/// forwarded, and leaves the command channel untouched.
pub proof fn lemma_unaddressed_drop(raw_id: u32, data: Seq<u8>, local_device_id: u8)
    requires
        CanId::spec_from_raw(raw_id).device_id != local_device_id,
        CanId::spec_from_raw(raw_id).device_id != BROADCAST_DEVICE_ID,
    ensures
        spec_dispatch(raw_id, data, local_device_id) == DispatchAction::NotAddressed,
{
}

/// This node's identity on the bus. Both fields can be assigned at runtime
/// by a provisioning message; every change goes through `update_address`,
/// which also re-derives the hardware filter, so no component ever works
/// from a stale filter.
pub struct NodeIdentity {
    /// Local device type, six bits of the identifier.
    pub device_type: u8,
    /// Local device id; frames for this id or the broadcast id are handled.
    pub device_id: u8,
}

impl NodeIdentity {
    /// An identity with the filter it implies.
    pub fn new(device_type: u8, device_id: u8) -> (r: (NodeIdentity, FilterPair))
        ensures
            r.0.device_type == device_type,
            r.0.device_id == device_id,
            r.1 == spec_filter_for(device_type, device_id),
    {
        let filter = make_filter(device_type, device_id);
        (NodeIdentity { device_type, device_id }, filter)
    }

    /// Assigns a new address and hands back the filter derived from it,
    /// for the hardware layer to program before the next frame is judged.
    pub fn update_address(&mut self, device_type: u8, device_id: u8) -> (f: FilterPair)
        ensures
            final(self).device_type == device_type,
            final(self).device_id == device_id,
            f == spec_filter_for(device_type, device_id),
    {
        self.device_type = device_type;
        self.device_id = device_id;
        make_filter(device_type, device_id)
    }
}

} // verus!
