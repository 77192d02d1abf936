//! The inactivity timer: any input pauses the animation (the menu stays on
//! screen) and the pause ends after five seconds without input.

use vstd::prelude::*;

verus! {

/// How long a pause lasts after the last input, in microseconds.
pub const PAUSE_TIMEOUT_US: u64 = 5_000_000;

/// Start of the running pause after `event` was taken into account: an input
/// (`Some(true)`) restarts it at `now`, `Some(false)` cancels it.
pub open spec fn start_after_event(start: Option<u64>, event: Option<bool>, now: u64) -> Option<u64> {
    match event {
        Some(true) => Some(now),
        Some(false) => None,
        None => start,
    }
}

/// Whether a pause that started at `start` has run out at `now`.
pub open spec fn timed_out(start: Option<u64>, now: u64) -> bool {
    match start {
        Some(s) => now - s >= PAUSE_TIMEOUT_US,
        None => false,
    }
}

/// One pass of the inactivity timer at time `now` (microseconds since
/// boot). `event` is the signal received in this pass, if any; `start` is
/// when the running pause began. The result is the last value written to
/// the pause flag in this pass, if any: `true` on an input, `false` on a
/// cancel or when five seconds have passed since the pause began.
pub fn pause_step(start: &mut Option<u64>, event: Option<bool>, now: u64) -> (pause: Option<bool>)
    requires
        match start_after_event(*old(start), event, now) {
            Some(s) => s <= now,
            None => true,
        },
    ensures
        ({
            let s1 = start_after_event(*old(start), event, now);
            if timed_out(s1, now) {
                *final(start) == None::<u64> && pause == Some(false)
            } else {
                *final(start) == s1 && pause == event
            }
        }),
{
    let mut pause: Option<bool> = None;
    match event {
        Some(true) => {
            *start = Some(now);
            pause = Some(true);
        },
        Some(false) => {
            *start = None;
            pause = Some(false);
        },
        None => {},
    }
    if let Some(s) = *start {
        if now - s >= PAUSE_TIMEOUT_US {
            pause = Some(false);
            *start = None;
        }
    }
    pause
}

/// An input always pauses, and the pause it starts has not yet run out.
pub proof fn law_input_pauses(start: Option<u64>, now: u64)
    ensures
        start_after_event(start, Some(true), now) == Some(now),
        !timed_out(Some(now), now),
{
}

/// Without further input, the pause runs out exactly five seconds after it
/// began: earlier passes leave it running, later ones end it.
pub proof fn law_pause_lasts_five_seconds(s: u64, now: u64)
    requires
        s <= now,
    ensures
        timed_out(start_after_event(Some(s), None, now), now) <==> now >= s + PAUSE_TIMEOUT_US,
{
}

} // verus!
