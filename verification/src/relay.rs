//! Event relay: turning one decoded inbound event into the exact pair of
//! device writes the kernel input protocol requires — the key event, then
//! its synchronization report — and the per-read decisions of a
//! connection's relay loop.

use crate::events::{
    is_key_event, is_sync_report, timestamp_leq, InputEvent, EV_SYN, SYN_REPORT,
};
use vstd::prelude::*;

verus! {

/// The writes owed for one inbound buffer: none where the buffer did not
/// decode, otherwise the decoded event restamped to `now_sec` followed by a
/// synchronization report one microsecond later.
pub open spec fn spec_relay_plan(decoded: Option<InputEvent>, now_sec: i64) -> Option<
    (InputEvent, InputEvent),
> {
    match decoded {
        Option::None => Option::None,
        Option::Some(e) => Option::Some(
            (
                InputEvent {
                    time_sec: now_sec,
                    time_usec: 0,
                    class: e.class,
                    code: e.code,
                    value: e.value,
                },
                InputEvent {
                    time_sec: now_sec,
                    time_usec: 1,
                    class: EV_SYN,
                    code: SYN_REPORT,
                    value: 0,
                },
            ),
        ),
    }
}

/// Plan the writes for one inbound buffer: `None` (no write at all) where
/// decoding failed, otherwise exactly the event write and its trailing
/// synchronization write, in that order.
///
/// The decoded event's own timestamp is discarded: the event is stamped
/// with the wall-clock second `now_sec`, and the synchronization report
/// with the same second and a sub-second component one tick later, so any
/// consumer ordering by timestamp sees the pair in order.
pub fn plan_relay(decoded: Option<InputEvent>, now_sec: i64) -> (r: Option<
    (InputEvent, InputEvent),
>)
    ensures
        r == spec_relay_plan(decoded, now_sec),
{
    match decoded {
        Option::None => Option::None,
        Option::Some(e) => Option::Some(
            (
                InputEvent {
                    time_sec: now_sec,
                    time_usec: 0,
                    class: e.class,
                    code: e.code,
                    value: e.value,
                },
                InputEvent {
                    time_sec: now_sec,
                    time_usec: 1,
                    class: EV_SYN,
                    code: SYN_REPORT,
                    value: 0,
                },
            ),
        ),
    }
}

/// Event pairing: a successfully decoded event owes exactly one event write
/// followed by exactly one synchronization write, carrying the decoded
/// class, code and value, with the synchronization report's timestamp no
/// earlier than the event's.
pub proof fn lemma_event_pairing(e: InputEvent, now_sec: i64)
    ensures
        spec_relay_plan(Some(e), now_sec) is Some,
        ({
            let (k, s) = spec_relay_plan(Some(e), now_sec)->0;
            &&& k.class == e.class
            &&& k.code == e.code
            &&& k.value == e.value
            &&& is_sync_report(s)
            &&& timestamp_leq(k, s)
        }),
{
}

/// Malformed input: an undecodable buffer owes no write at all.
pub proof fn lemma_malformed_no_writes(now_sec: i64)
    ensures
        spec_relay_plan(None, now_sec) is None,
{
}

/// The writes one plan performs on the device, in order.
pub open spec fn plan_writes(p: Option<(InputEvent, InputEvent)>) -> Seq<InputEvent> {
    match p {
        Option::None => Seq::empty(),
        Option::Some(pair) => seq![pair.0, pair.1],
    }
}

/// The full write log of a connection that relayed `inbound` in order:
/// each element is one buffer's decode outcome with the wall-clock second
/// at which it was relayed.
pub open spec fn relay_log(inbound: Seq<(Option<InputEvent>, i64)>) -> Seq<InputEvent>
    decreases inbound.len(),
{
    if inbound.len() == 0 {
        Seq::empty()
    } else {
        plan_writes(spec_relay_plan(inbound[0].0, inbound[0].1)) + relay_log(inbound.drop_first())
    }
}

/// Ordering invariant of the write log: however many buffers a connection
/// relays, every key-event write is immediately followed by its
/// synchronization write — no other write comes between them.
pub proof fn lemma_log_pairing(inbound: Seq<(Option<InputEvent>, i64)>)
    ensures
        forall|i: int|
            0 <= i < relay_log(inbound).len() && is_key_event(#[trigger] relay_log(inbound)[i])
                ==> i + 1 < relay_log(inbound).len() && is_sync_report(relay_log(inbound)[i + 1]),
    decreases inbound.len(),
{
    if inbound.len() > 0 {
        let head = plan_writes(spec_relay_plan(inbound[0].0, inbound[0].1));
        let rest = relay_log(inbound.drop_first());
        lemma_log_pairing(inbound.drop_first());
        assert forall|i: int|
            0 <= i < relay_log(inbound).len() && is_key_event(#[trigger] relay_log(inbound)[i])
                implies i + 1 < relay_log(inbound).len() && is_sync_report(
            relay_log(inbound)[i + 1],
        ) by {
            if i < head.len() {
                // Within one pair the second write is the synchronization
                // report, which is no key event, so a key event can only
                // stand first.
                assert(head.len() == 2);
                assert(!is_key_event(head[1]));
                assert(relay_log(inbound)[0] == head[0]);
                assert(relay_log(inbound)[1] == head[1]);
            } else {
                assert(relay_log(inbound)[i] == rest[i - head.len()]);
                assert(is_key_event(rest[i - head.len()]));
                assert(relay_log(inbound)[i + 1] == rest[i - head.len() + 1]);
            }
        }
    }
}

/// Whether the trailing synchronization write is still owed after the event
/// write was attempted: only where that write succeeded. A failed event
/// write aborts the pair — an orphaned event is less harmful than a
/// spurious synchronization report with no event before it.
pub fn sync_after_key(plan: (InputEvent, InputEvent), key_write_ok: bool) -> (r: Option<
    InputEvent,
>)
    ensures
        key_write_ok ==> r == Some(plan.1),
        !key_write_ok ==> r is None,
{
    if key_write_ok {
        Some(plan.1)
    } else {
        None
    }
}

/// The outcome of one read attempt on a connection, as the relay loop sees
/// it: `Read(n)` bytes arrived (0 meaning the stream closed), the stream
/// was not ready yet, or the read failed outright.
#[derive(Clone, Copy, PartialEq, Eq, Structural, Debug)]
pub enum ReadOutcome {
    Read(usize),
    NotReady,
    Failed,
}

/// What the relay loop does next: forward the buffer as one event, retry
/// the read, end the loop because the stream closed (no error), or end it
/// because the read failed (logged as an error).
#[derive(Clone, Copy, PartialEq, Eq, Structural, Debug)]
pub enum RelayAction {
    Forward,
    Retry,
    StopClean,
    StopError,
}

/// Decide the relay loop's next step for one read outcome. A non-empty
/// read is forwarded verbatim as exactly one encoded event; a zero-length
/// read ends the loop cleanly; a not-ready signal is retried, neither an
/// error nor end-of-stream; a failed read ends the loop with an error.
pub fn relay_step(outcome: ReadOutcome) -> (a: RelayAction)
    ensures
        a == (match outcome {
            ReadOutcome::Read(n) => if n == 0 {
                RelayAction::StopClean
            } else {
                RelayAction::Forward
            },
            ReadOutcome::NotReady => RelayAction::Retry,
            ReadOutcome::Failed => RelayAction::StopError,
        }),
{
    match outcome {
        ReadOutcome::Read(n) => if n == 0 {
            RelayAction::StopClean
        } else {
            RelayAction::Forward
        },
        ReadOutcome::NotReady => RelayAction::Retry,
        ReadOutcome::Failed => RelayAction::StopError,
    }
}

} // verus!
