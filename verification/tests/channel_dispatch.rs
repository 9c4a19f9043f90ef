use cancomponents_core::can_id::{CanId, CanMessageType};
use cancomponents_core::channel::{CommandQueue, CHANNEL_CAPACITY};
use cancomponents_core::dispatch::{dispatch, handle_frame, DispatchAction, NodeIdentity};
use cancomponents_core::filter::make_filter;
use cancomponents_core::relais_message::{RelaisMessage, RelaisState};

fn command(num: u8) -> RelaisMessage {
    RelaisMessage { num, state: RelaisState::Up, duration_ms: 1000, bank: 0 }
}

#[test]
fn a_full_channel_refuses_until_one_command_is_consumed() {
    let mut queue = CommandQueue::new();
    for i in 0..CHANNEL_CAPACITY {
        assert!(queue.try_send(command(i as u8)));
    }
    assert_eq!(queue.len(), CHANNEL_CAPACITY);
    // one more is refused and nothing is lost
    assert!(!queue.try_send(command(99)));
    assert_eq!(queue.len(), CHANNEL_CAPACITY);
    // after the engine consumes one, the refused command is accepted
    assert_eq!(queue.try_receive(), Some(command(0)));
    assert!(queue.try_send(command(99)));
    assert_eq!(queue.len(), CHANNEL_CAPACITY);
}

#[test]
fn commands_leave_the_channel_in_arrival_order() {
    let mut queue = CommandQueue::new();
    assert_eq!(queue.try_receive(), None);
    queue.try_send(command(3));
    queue.try_send(command(1));
    queue.try_send(command(2));
    assert_eq!(queue.try_receive(), Some(command(3)));
    assert_eq!(queue.try_receive(), Some(command(1)));
    assert_eq!(queue.try_receive(), Some(command(2)));
    assert_eq!(queue.try_receive(), None);
}

#[test]
fn unaddressed_frames_enqueue_nothing() {
    // a frame for device id 9 reaches a node with local id 3
    let raw = CanId::new(0x05, 9, CanMessageType::Relais).to_raw();
    let payload = RelaisMessage { num: 1, state: RelaisState::Up, duration_ms: 0, bank: 0 }
        .to_bytes();
    assert_eq!(dispatch(raw, &payload, 3), DispatchAction::NotAddressed);

    let mut queue = CommandQueue::new();
    let (action, enqueued) = handle_frame(raw, &payload, 3, &mut queue);
    assert_eq!(action, DispatchAction::NotAddressed);
    assert!(!enqueued);
    assert_eq!(queue.len(), 0);
}

#[test]
fn unicast_and_broadcast_relay_frames_are_enqueued() {
    let msg = RelaisMessage { num: 2, state: RelaisState::Down, duration_ms: 3000, bank: 0 };
    let payload = msg.to_bytes();
    let mut queue = CommandQueue::new();

    let unicast = CanId::new(0x05, 3, CanMessageType::Relais).to_raw();
    let (action, enqueued) = handle_frame(unicast, &payload, 3, &mut queue);
    assert!(matches!(action, DispatchAction::Relay(_)));
    assert!(enqueued);

    let broadcast = CanId::new(0x05, 0, CanMessageType::Rollershutter).to_raw();
    let (action, enqueued) = handle_frame(broadcast, &payload, 3, &mut queue);
    assert!(matches!(action, DispatchAction::Relay(_)));
    assert!(enqueued);

    assert_eq!(queue.len(), 2);
    let first = queue.try_receive().unwrap();
    assert_eq!(first.num, 2);
    assert_eq!(first.state, RelaisState::Down);
    assert_eq!(first.duration_ms, 3000);
}

#[test]
fn malformed_relay_payloads_are_dropped_silently() {
    let raw = CanId::new(0x05, 3, CanMessageType::Relais).to_raw();
    let mut queue = CommandQueue::new();
    // too short
    let (action, enqueued) = handle_frame(raw, &[1, 1, 0], 3, &mut queue);
    assert_eq!(action, DispatchAction::Malformed);
    assert!(!enqueued);
    // invalid state code
    let (action, _) = handle_frame(raw, &[1, 9, 0, 0, 0, 0], 3, &mut queue);
    assert_eq!(action, DispatchAction::Malformed);
    assert_eq!(queue.len(), 0);
}

#[test]
fn other_message_types_are_forwarded_to_their_collaborator() {
    let mut queue = CommandQueue::new();
    let raw = CanId::new(0x05, 0, CanMessageType::Uptime).to_raw();
    let (action, enqueued) = handle_frame(raw, &[], 3, &mut queue);
    assert_eq!(action, DispatchAction::Forward(CanMessageType::Uptime));
    assert!(!enqueued);
    assert_eq!(queue.len(), 0);

    let raw = CanId::new(0x05, 3, CanMessageType::Unknown(0xEE)).to_raw();
    let (action, _) = handle_frame(raw, &[], 3, &mut queue);
    assert_eq!(action, DispatchAction::Forward(CanMessageType::Unknown(0xEE)));
}

#[test]
fn filter_matches_version_type_and_top_id_bits() {
    let f = make_filter(0x12, 0xE3);
    // the first half: version bit, six type bits, top three id bits
    let full_id: u32 = (1 << 28) | (0x12 << 16) | (0xE0 << 8);
    let full_mask: u32 = (1 << 28) | (0x3F << 16) | (0x7 << 13);
    assert_eq!(f.code0, ((full_id >> 13) & 0xFFFF) as u16);
    assert_eq!(f.mask0, ((full_mask >> 13) & 0xFFFF) as u16);
    // the second half: the version bit alone
    assert_eq!(f.code1, 0x8000);
    assert_eq!(f.mask1, 0x8000);

    // acceptance as the controller computes it, on a matching unicast frame
    let raw = CanId::new(0x12, 0xE5, CanMessageType::Relais).to_raw();
    let upper = ((raw >> 13) & 0xFFFF) as u16;
    assert_eq!(upper & f.mask0, f.code0 & f.mask0);
    // a frame for another device type fails the first half, passes the second
    let other = CanId::new(0x13, 0xE5, CanMessageType::Relais).to_raw();
    let upper = ((other >> 13) & 0xFFFF) as u16;
    assert_ne!(upper & f.mask0, f.code0 & f.mask0);
    assert_eq!(upper & f.mask1, f.code1 & f.mask1);
}

#[test]
fn updating_the_address_rederives_the_filter() {
    let (mut identity, filter) = NodeIdentity::new(0x12, 0xE3);
    assert_eq!(identity.device_type, 0x12);
    assert_eq!(identity.device_id, 0xE3);
    assert_eq!(filter, make_filter(0x12, 0xE3));

    let refreshed = identity.update_address(0x07, 0x21);
    assert_eq!(identity.device_type, 0x07);
    assert_eq!(identity.device_id, 0x21);
    assert_eq!(refreshed, make_filter(0x07, 0x21));
}
