//! The input-event model: event classes, codes and the timestamped event
//! tuple that is written to the virtual device.

use vstd::prelude::*;

verus! {

/// Event class of synchronization markers.
pub const EV_SYN: u16 = 0x00;

/// Event class of key press/release/repeat events.
pub const EV_KEY: u16 = 0x01;

/// Event class of autorepeat configuration; a device that reports both
/// `EV_KEY` and `EV_REP` is taken for a real keyboard.
pub const EV_REP: u16 = 0x14;

/// Code of the synchronization-report marker within the `EV_SYN` class.
pub const SYN_REPORT: u16 = 0;

/// Code of the letter-K key within the `EV_KEY` class; the one key code the
/// synthetic identity always enables.
pub const KEY_K: u16 = 37;

/// Bus type reported by the synthetic identity.
pub const BUS_USB: u16 = 0x03;

/// One input event: a timestamped (class, code, value) tuple.
///
/// The timestamp is seconds and microseconds since the epoch. The value
/// carries state: press/release/repeat for key events, 0 for
/// synchronization markers.
#[derive(Clone, Copy, PartialEq, Eq, Structural, Debug)]
pub struct InputEvent {
    pub time_sec: i64,
    pub time_usec: i64,
    pub class: u16,
    pub code: u16,
    pub value: i32,
}

/// An event belongs to the key-event class.
pub open spec fn is_key_event(e: InputEvent) -> bool {
    e.class == EV_KEY
}

/// An event is the synchronization-report marker with value 0.
pub open spec fn is_sync_report(e: InputEvent) -> bool {
    e.class == EV_SYN && e.code == SYN_REPORT && e.value == 0
}

/// Timestamp order: `a` is no later than `b`, comparing seconds first and
/// microseconds within equal seconds.
pub open spec fn timestamp_leq(a: InputEvent, b: InputEvent) -> bool {
    a.time_sec < b.time_sec || (a.time_sec == b.time_sec && a.time_usec <= b.time_usec)
}

} // verus!
