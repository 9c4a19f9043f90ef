use cancomponents_core::relais_manager::{RelayManager, IDLE_TIMEOUT_MS};
use cancomponents_core::relais_message::RelaisState;

#[test]
fn expiry_is_idempotent_at_the_same_timestamp() {
    let mut manager: RelayManager<16> = RelayManager::new();
    manager.apply_command(1, RelaisState::Up, 100, 0);
    let first = manager.poll_expired(100);
    assert_eq!(first, vec![(1usize, RelaisState::Off)]);
    let second = manager.poll_expired(100);
    assert_eq!(second, vec![]);
}

#[test]
fn restart_replaces_schedule() {
    let mut manager: RelayManager<16> = RelayManager::new();
    let t0: u64 = 1000;
    manager.apply_command(5, RelaisState::Up, 2000, t0);
    manager.apply_command(5, RelaisState::Up, 500, t0 + 100);
    // nothing fires before the second command's deadline
    assert_eq!(manager.poll_expired(t0 + 599), vec![]);
    // the relay reverts at t0 + 600, not t0 + 2000
    assert_eq!(manager.poll_expired(t0 + 600), vec![(5usize, RelaisState::Off)]);
}

#[test]
fn zero_duration_clears_pending_schedule() {
    let mut manager: RelayManager<16> = RelayManager::new();
    manager.apply_command(3, RelaisState::Up, 1000, 0);
    manager.apply_command(3, RelaisState::Off, 0, 10);
    assert_eq!(manager.poll_expired(10_000_000), vec![]);
}

#[test]
fn changed_reports_when_the_output_must_be_rewritten() {
    let mut manager: RelayManager<16> = RelayManager::new();
    // a first command always writes, even an off without a duration
    assert!(manager.apply_command(2, RelaisState::Off, 0, 0));
    // the same state without a duration changes nothing
    assert!(!manager.apply_command(2, RelaisState::Off, 0, 5));
    // a new state writes
    assert!(manager.apply_command(2, RelaisState::Up, 0, 10));
    // the same state with a duration restarts the timer, so it writes
    assert!(manager.apply_command(2, RelaisState::Up, 300, 15));
}

#[test]
fn indices_beyond_capacity_are_rejected() {
    let mut manager: RelayManager<16> = RelayManager::new();
    assert!(!manager.apply_command(16, RelaisState::On, 100, 0));
    assert!(!manager.apply_command(250, RelaisState::On, 100, 0));
    assert_eq!(manager.poll_expired(10_000), vec![]);
}

#[test]
fn next_timeout_is_the_earliest_pending_deadline() {
    let mut manager: RelayManager<16> = RelayManager::new();
    assert_eq!(manager.next_timeout(0), IDLE_TIMEOUT_MS);
    manager.apply_command(0, RelaisState::Up, 500, 0);
    manager.apply_command(1, RelaisState::Up, 200, 0);
    manager.apply_command(2, RelaisState::Up, 900, 0);
    assert_eq!(manager.next_timeout(0), 200);
    assert_eq!(manager.next_timeout(150), 50);
    // a deadline already passed clamps to zero
    assert_eq!(manager.next_timeout(400), 0);
    // with every schedule gone the idle interval comes back
    manager.poll_expired(10_000);
    assert_eq!(manager.next_timeout(10_001), IDLE_TIMEOUT_MS);
}

#[test]
fn poll_reports_expired_relays_in_index_order() {
    let mut manager: RelayManager<16> = RelayManager::new();
    manager.apply_command(7, RelaisState::Up, 100, 0);
    manager.apply_command(2, RelaisState::Down, 50, 0);
    manager.apply_command(11, RelaisState::On, 70, 0);
    manager.apply_command(4, RelaisState::Up, 10_000, 0);
    let fired = manager.poll_expired(150);
    assert_eq!(
        fired,
        vec![(2usize, RelaisState::Off), (7usize, RelaisState::Off), (11usize, RelaisState::Off)]
    );
    // the unexpired schedule still stands
    assert_eq!(manager.poll_expired(10_000), vec![(4usize, RelaisState::Off)]);
}

#[test]
fn a_command_only_reverts_after_its_full_duration() {
    let mut manager: RelayManager<16> = RelayManager::new();
    manager.apply_command(9, RelaisState::Down, 3000, 42);
    assert_eq!(manager.poll_expired(42 + 2999), vec![]);
    assert_eq!(manager.poll_expired(42 + 3000), vec![(9usize, RelaisState::Off)]);
}
