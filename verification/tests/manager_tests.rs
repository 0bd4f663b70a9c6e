use virtual_keyboard::capability::{CapabilitySet, EventCodeId};
use virtual_keyboard::events::{BUS_USB, EV_KEY, EV_REP, EV_SYN, InputEvent, KEY_K, SYN_REPORT};
use virtual_keyboard::identity::{build_identity, enable_failure_fatal, synthetic_identity, DeviceIdentity};
use virtual_keyboard::manager::VirtualKeyboard;
use virtual_keyboard::relay::{relay_step, ReadOutcome, RelayAction};
use virtual_keyboard::scanner::ScanEntry;

fn device(name: &str, vendor: u16, product: u16, classes: &[u16]) -> DeviceIdentity {
    DeviceIdentity {
        name: name.to_string(),
        bustype: BUS_USB,
        vendor,
        product,
        caps: CapabilitySet { classes: classes.to_vec(), codes: Vec::new() },
    }
}

#[test]
fn synthetic_identity_values() {
    let ident = synthetic_identity();
    assert_eq!(ident.name, "Virtual Keyboard");
    assert_eq!(ident.bustype, BUS_USB);
    assert_eq!(ident.vendor, 0xabcd);
    assert_eq!(ident.product, 0xefef);
    assert!(ident.caps.has_class(EV_KEY));
    assert!(ident.caps.has_code(EventCodeId { class: EV_KEY, code: KEY_K }));
    assert!(ident.caps.has_code(EventCodeId { class: EV_SYN, code: SYN_REPORT }));
}

#[test]
fn build_identity_clones_or_falls_back() {
    let src = device("TestKbd", 0x1234, 0x5678, &[EV_KEY, EV_REP]);
    let cloned = build_identity(Some(src));
    assert_eq!(cloned.name, "TestKbd");
    assert_eq!(cloned.vendor, 0x1234);
    assert_eq!(cloned.product, 0x5678);

    let fallback = build_identity(None);
    assert_eq!(fallback.name, "Virtual Keyboard");
    assert_eq!(fallback.vendor, 0xabcd);
    assert_eq!(fallback.product, 0xefef);
}

#[test]
fn fallback_when_no_keyboard_found() {
    // The one entry lacks the autorepeat class, so it is no keyboard.
    let scan = vec![ScanEntry {
        file_name: "event0".to_string(),
        device: Some(device("SomePad", 0x1111, 0x2222, &[EV_KEY])),
    }];
    let vk = VirtualKeyboard::new(scan);
    assert!(!vk.has_source);
    assert_eq!(vk.identity.name, "Virtual Keyboard");
    assert_eq!(vk.identity.vendor, 0xabcd);
    assert_eq!(vk.identity.product, 0xefef);
}

#[test]
fn cloning_discovered_keyboard_identity() {
    let scan = vec![
        ScanEntry { file_name: "event0".to_string(), device: None },
        ScanEntry {
            file_name: "event1".to_string(),
            device: Some(device("TestKbd", 0x1234, 0x5678, &[EV_KEY, EV_REP])),
        },
    ];
    let vk = VirtualKeyboard::new(scan);
    assert!(vk.has_source);
    assert_eq!(vk.identity.name, "TestKbd");
    assert_eq!(vk.identity.vendor, 0x1234);
    assert_eq!(vk.identity.product, 0x5678);
    assert!(vk.identity.caps.has_class(EV_KEY));
    assert!(vk.identity.caps.has_class(EV_REP));
}

#[test]
fn manager_constructs_from_empty_directory() {
    let vk = VirtualKeyboard::new(Vec::new());
    assert!(!vk.has_source);
    assert_eq!(vk.identity.name, "Virtual Keyboard");
}

#[test]
fn default_manager_is_synthetic() {
    let vk = VirtualKeyboard::default();
    assert!(!vk.has_source);
    assert_eq!(vk.identity.name, "Virtual Keyboard");
    assert_eq!(vk.identity.vendor, 0xabcd);
    assert_eq!(vk.identity.product, 0xefef);
}

#[test]
fn relay_connection_key_then_close() {
    // One valid "key K pressed" buffer arrives, then the stream closes.
    let vk = VirtualKeyboard::new(Vec::new());
    assert_eq!(relay_step(ReadOutcome::Read(58)), RelayAction::Forward);
    let decoded = InputEvent { time_sec: 0, time_usec: 0, class: EV_KEY, code: KEY_K, value: 1 };
    let plan = vk.write_event(Some(decoded), 9);
    let (key, sync) = plan.expect("one key write and one sync write");
    assert_eq!(key.class, EV_KEY);
    assert_eq!(key.code, KEY_K);
    assert_eq!(key.value, 1);
    assert_eq!(sync.class, EV_SYN);
    assert_eq!(sync.code, SYN_REPORT);
    assert_eq!(sync.value, 0);
    // The close itself ends the loop cleanly, not as an error.
    assert_eq!(relay_step(ReadOutcome::Read(0)), RelayAction::StopClean);
}

#[test]
fn relay_connection_undecodable_buffer() {
    // A full 4096-byte buffer that does not decode: zero writes, and the
    // loop goes on waiting for more input.
    let vk = VirtualKeyboard::new(Vec::new());
    assert_eq!(relay_step(ReadOutcome::Read(4096)), RelayAction::Forward);
    assert_eq!(vk.write_event(None, 9), None);
    assert_eq!(relay_step(ReadOutcome::NotReady), RelayAction::Retry);
}

#[test]
fn read_event_needs_a_source() {
    let without_source = VirtualKeyboard::new(Vec::new());
    let ev = InputEvent { time_sec: 1, time_usec: 2, class: EV_KEY, code: KEY_K, value: 0 };
    assert_eq!(without_source.read_event(Some(ev)), None);
    assert_eq!(without_source.read_event(None), None);

    let scan = vec![ScanEntry {
        file_name: "event1".to_string(),
        device: Some(device("TestKbd", 0x1234, 0x5678, &[EV_KEY, EV_REP])),
    }];
    let with_source = VirtualKeyboard::new(scan);
    assert_eq!(with_source.read_event(Some(ev)), Some(ev));
    assert_eq!(with_source.read_event(None), None);
}

#[test]
fn essential_capability_failures_are_fatal() {
    // Enabling the key-event class itself is essential.
    assert!(enable_failure_fatal(EV_KEY, None));
    // The synchronization-report code is essential.
    assert!(enable_failure_fatal(EV_SYN, Some(SYN_REPORT)));
    // A single key code is opportunistic: a failure is only a warning.
    assert!(!enable_failure_fatal(EV_KEY, Some(KEY_K)));
}
