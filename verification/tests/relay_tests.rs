use virtual_keyboard::events::{InputEvent, EV_KEY, EV_SYN, KEY_K, SYN_REPORT};
use virtual_keyboard::relay::{plan_relay, relay_step, sync_after_key, ReadOutcome, RelayAction};

fn key_pressed(code: u16) -> InputEvent {
    InputEvent { time_sec: 7, time_usec: 99, class: EV_KEY, code, value: 1 }
}

#[test]
fn event_pairing_key_then_sync() {
    let plan = plan_relay(Some(key_pressed(KEY_K)), 42);
    let (key, sync) = plan.expect("a decoded event owes a write pair");
    assert_eq!(
        key,
        InputEvent { time_sec: 42, time_usec: 0, class: EV_KEY, code: KEY_K, value: 1 }
    );
    assert_eq!(
        sync,
        InputEvent { time_sec: 42, time_usec: 1, class: EV_SYN, code: SYN_REPORT, value: 0 }
    );
    // The synchronization event's timestamp is not earlier than the key event's.
    assert!(
        sync.time_sec > key.time_sec
            || (sync.time_sec == key.time_sec && sync.time_usec >= key.time_usec)
    );
}

#[test]
fn inbound_timestamp_is_discarded() {
    let inbound = InputEvent { time_sec: 1000, time_usec: 555, class: EV_KEY, code: 30, value: 2 };
    let (key, sync) = plan_relay(Some(inbound), 5).unwrap();
    assert_eq!(key.time_sec, 5);
    assert_eq!(key.time_usec, 0);
    assert_eq!(sync.time_sec, 5);
    assert_eq!(sync.time_usec, 1);
    assert_eq!(key.code, 30);
    assert_eq!(key.value, 2);
}

#[test]
fn malformed_input_owes_no_writes() {
    assert_eq!(plan_relay(None, 42), None);
}

#[test]
fn sync_withheld_after_failed_key_write() {
    let plan = plan_relay(Some(key_pressed(KEY_K)), 3).unwrap();
    assert_eq!(sync_after_key(plan, true), Some(plan.1));
    assert_eq!(sync_after_key(plan, false), None);
}

#[test]
fn relay_step_decisions() {
    assert_eq!(relay_step(ReadOutcome::Read(0)), RelayAction::StopClean);
    assert_eq!(relay_step(ReadOutcome::Read(17)), RelayAction::Forward);
    assert_eq!(relay_step(ReadOutcome::Read(4096)), RelayAction::Forward);
    assert_eq!(relay_step(ReadOutcome::NotReady), RelayAction::Retry);
    assert_eq!(relay_step(ReadOutcome::Failed), RelayAction::StopError);
}
