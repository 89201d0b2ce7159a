//! The polling state machine of a device-side firmware update. Each poll
//! iteration is one pure step from the last observed in-progress step, the
//! packet received (if any) and the elapsed wall-clock time to the next
//! outcome; the loop that drives it performs only what a step prescribes.

use vstd::prelude::*;
use crate::packet::DataPacket;
use crate::types::UpdateStatus;

verus! {

/// Wall-clock deadline of the whole polling wait, measured from its start.
pub const FIRMWARE_UPDATE_TIMEOUT_MS: u64 = 90 * 1000;

/// How long the driver lets the device settle (it is rebooting) after the
/// final Done report before declaring success.
pub const UPDATE_SETTLE_MS: u64 = 2 * 1000;

/// Pause between poll attempts.
pub const UPDATE_POLL_PAUSE_MS: u64 = 1;

/// What one poll iteration decides.
#[derive(Debug, Clone, Copy, PartialEq, Eq, Structural)]
pub enum UpdateOutcome {
    /// Keep polling; carries the last observed in-progress step.
    Running(UpdateStatus),
    /// The device reported Done: wait the settle delay, then succeed.
    Finished,
    /// The device reported Err; carries the last in-progress step observed
    /// before it.
    Faulted(UpdateStatus),
    /// No terminal report arrived within the deadline.
    TimedOut,
}

/// One step of the polling loop. A terminal status decides immediately; an
/// in-progress status is recorded and polling goes on; anything else —
/// no packet, or a packet that is no update report — leaves the recorded
/// step alone and times the wait out once the elapsed time passes the
/// deadline.
pub open spec fn spec_update_step(
    last: UpdateStatus,
    packet: Option<DataPacket>,
    elapsed_ms: u64,
    timeout_ms: u64,
) -> UpdateOutcome {
    match packet {
        Some(DataPacket::UpdateStatus(UpdateStatus::Done)) => UpdateOutcome::Finished,
        Some(DataPacket::UpdateStatus(UpdateStatus::Fault)) => UpdateOutcome::Faulted(last),
        Some(DataPacket::UpdateStatus(s)) => UpdateOutcome::Running(s),
        _ => if elapsed_ms > timeout_ms {
            UpdateOutcome::TimedOut
        } else {
            UpdateOutcome::Running(last)
        },
    }
}

pub fn update_step(
    last: UpdateStatus,
    packet: &Option<DataPacket>,
    elapsed_ms: u64,
    timeout_ms: u64,
) -> (r: UpdateOutcome)
    ensures
        r == spec_update_step(last, *packet, elapsed_ms, timeout_ms),
{
    match packet {
        Some(DataPacket::UpdateStatus(UpdateStatus::Done)) => UpdateOutcome::Finished,
        Some(DataPacket::UpdateStatus(UpdateStatus::Fault)) => UpdateOutcome::Faulted(last),
        Some(DataPacket::UpdateStatus(s)) => UpdateOutcome::Running(*s),
        _ => if elapsed_ms > timeout_ms {
            UpdateOutcome::TimedOut
        } else {
            UpdateOutcome::Running(last)
        },
    }
}

/// The wait is never cut short: a step without a terminal report times out
/// exactly when the elapsed time has passed the deadline.
pub proof fn lemma_update_no_early_timeout(
    last: UpdateStatus,
    packet: Option<DataPacket>,
    elapsed_ms: u64,
    timeout_ms: u64,
)
    requires
        forall|s: UpdateStatus| packet != Some(DataPacket::UpdateStatus(s)),
    ensures
        spec_update_step(last, packet, elapsed_ms, timeout_ms) == UpdateOutcome::TimedOut
            <==> elapsed_ms > timeout_ms,
{
    match packet {
        Some(DataPacket::UpdateStatus(s)) => {
            assert(packet == Some(DataPacket::UpdateStatus(s)));
        },
        _ => {},
    }
}

/// Folds a whole scripted sequence of poll events — each an optional packet
/// and the elapsed time at that attempt — through the step function.
pub open spec fn spec_run_update(
    last: UpdateStatus,
    events: Seq<(Option<DataPacket>, u64)>,
    timeout_ms: u64,
) -> UpdateOutcome
    decreases events.len(),
{
    if events.len() == 0 {
        UpdateOutcome::Running(last)
    } else {
        match spec_update_step(last, events[0].0, events[0].1, timeout_ms) {
            UpdateOutcome::Running(next) => spec_run_update(next, events.skip(1), timeout_ms),
            outcome => outcome,
        }
    }
}

/// An event that reports an in-progress step.
pub open spec fn spec_is_progress_event(e: (Option<DataPacket>, u64)) -> bool {
    e.0 matches Some(DataPacket::UpdateStatus(s)) && s != UpdateStatus::Done && s
        != UpdateStatus::Fault
}

/// The step an event reports; meaningful for update-status events only.
pub open spec fn spec_event_status(e: (Option<DataPacket>, u64)) -> UpdateStatus {
    match e.0 {
        Some(DataPacket::UpdateStatus(s)) => s,
        _ => UpdateStatus::Fault,
    }
}

/// A scripted sequence of status reports that ends in Done succeeds,
/// whatever the step order and however much time has passed.
pub proof fn lemma_update_script_done(
    last: UpdateStatus,
    events: Seq<(Option<DataPacket>, u64)>,
    timeout_ms: u64,
)
    requires
        events.len() >= 1,
        forall|i: int| 0 <= i < events.len() - 1 ==> spec_is_progress_event(#[trigger] events[i]),
        events.last().0 matches Some(DataPacket::UpdateStatus(s)) && s == UpdateStatus::Done,
    ensures
        spec_run_update(last, events, timeout_ms) == UpdateOutcome::Finished,
    decreases events.len(),
{
    if events.len() == 1 {
    } else {
        assert(spec_is_progress_event(events[0]));
        let next = spec_event_status(events[0]);
        assert(spec_update_step(last, events[0].0, events[0].1, timeout_ms)
            == UpdateOutcome::Running(next));
        assert(events.skip(1).last() == events.last());
        lemma_update_script_done(next, events.skip(1), timeout_ms);
    }
}

/// A scripted sequence of status reports that ends in Err fails, naming the
/// last in-progress step observed before the failure (or the step the loop
/// started from, if the very first report already failed).
pub proof fn lemma_update_script_fault(
    last: UpdateStatus,
    events: Seq<(Option<DataPacket>, u64)>,
    timeout_ms: u64,
)
    requires
        events.len() >= 1,
        forall|i: int| 0 <= i < events.len() - 1 ==> spec_is_progress_event(#[trigger] events[i]),
        events.last().0 matches Some(DataPacket::UpdateStatus(s)) && s == UpdateStatus::Fault,
    ensures
        spec_run_update(last, events, timeout_ms) == UpdateOutcome::Faulted(
            if events.len() >= 2 {
                spec_event_status(events[events.len() - 2])
            } else {
                last
            },
        ),
    decreases events.len(),
{
    if events.len() == 1 {
    } else {
        assert(spec_is_progress_event(events[0]));
        let next = spec_event_status(events[0]);
        assert(spec_update_step(last, events[0].0, events[0].1, timeout_ms)
            == UpdateOutcome::Running(next));
        assert(events.skip(1).last() == events.last());
        lemma_update_script_fault(next, events.skip(1), timeout_ms);
    }
}

/// If no packet ever arrives, polls whose elapsed times stay within the
/// deadline keep the loop running, and the first poll past the deadline —
/// and nothing earlier — times the operation out.
pub proof fn lemma_update_script_timeout(
    last: UpdateStatus,
    events: Seq<(Option<DataPacket>, u64)>,
    timeout_ms: u64,
)
    requires
        events.len() >= 1,
        forall|i: int| 0 <= i < events.len() ==> (#[trigger] events[i]).0 is None,
        forall|i: int| 0 <= i < events.len() - 1 ==> (#[trigger] events[i]).1 <= timeout_ms,
        events.last().1 > timeout_ms,
    ensures
        spec_run_update(last, events, timeout_ms) == UpdateOutcome::TimedOut,
    decreases events.len(),
{
    if events.len() == 1 {
    } else {
        assert(events.skip(1).last() == events.last());
        lemma_update_script_timeout(last, events.skip(1), timeout_ms);
    }
}

} // verus!
