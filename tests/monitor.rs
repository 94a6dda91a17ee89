use ddns_monitor::event::{AddressEvent, AddressScope, EventKind};
use ddns_monitor::monitor::{Monitor, MonitorAction};
use ddns_monitor::retry::RetryPolicy;

const ADDR_1: u128 = 0x2001_0db8_0000_0000_0000_0000_0000_0001;
const ADDR_2: u128 = 0x2001_0db8_0000_0000_0000_0000_0000_0002;

fn global(address: u128) -> AddressEvent {
    AddressEvent { kind: EventKind::NewAddress, index: 2, scope: AddressScope::Universe, flags: 0, address: Some(address) }
}

#[test]
fn success_on_first_attempt() {
    let mut m = Monitor::new(2, RetryPolicy { max_attempts: 3, base_delay_ms: 50 });
    assert!(!m.is_busy());
    assert_eq!(m.on_event(&global(ADDR_1)), MonitorAction::Attempt { address: ADDR_1 });
    assert!(m.is_busy());
    assert_eq!(m.current(), Some(ADDR_1));
    assert_eq!(m.on_attempt_succeeded(), MonitorAction::Done { address: ADDR_1 });
    assert!(!m.is_busy());
    assert_eq!(m.on_event(&global(ADDR_1)), MonitorAction::Ignore);
}

#[test]
fn exhausted_retries_keep_monitoring() {
    let mut m = Monitor::new(2, RetryPolicy { max_attempts: 3, base_delay_ms: 50 });
    assert_eq!(m.on_event(&global(ADDR_1)), MonitorAction::Attempt { address: ADDR_1 });
    assert_eq!(m.on_attempt_failed(), MonitorAction::RetryAfter { address: ADDR_1, delay_ms: 50 });
    assert_eq!(m.on_attempt_failed(), MonitorAction::RetryAfter { address: ADDR_1, delay_ms: 100 });
    assert_eq!(m.on_attempt_failed(), MonitorAction::Failed { address: ADDR_1 });
    assert!(!m.is_busy());
    // The failed address stays current: it is not tried again on its own.
    assert_eq!(m.current(), Some(ADDR_1));
    assert_eq!(m.on_event(&global(ADDR_1)), MonitorAction::Ignore);
    assert_eq!(m.on_event(&global(ADDR_2)), MonitorAction::Attempt { address: ADDR_2 });
    assert_eq!(m.on_attempt_failed(), MonitorAction::RetryAfter { address: ADDR_2, delay_ms: 50 });
    assert_eq!(m.on_attempt_succeeded(), MonitorAction::Done { address: ADDR_2 });
}
