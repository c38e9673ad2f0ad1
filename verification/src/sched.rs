//! The refresh/wait state machine. The loop starts in `Refresh` (an
//! immediate execution), moves to `Waiting` once a frame is drawn, and while
//! waiting reacts to what one polling slice observed: a quit keystroke stops
//! the loop at once, a resize redraws the same frame, and elapsed slices
//! accumulate until the interval is reached and a new execution is due.
//!
//! The machine assumes one `Slice` event per slept slice. A degraded driver
//! that instead blocks for the whole interval in a single sleep gives up
//! quit and resize responsiveness between refreshes and has no use for the
//! wait states; the cooperative slice-by-slice loop is the intended mode.

use vstd::prelude::*;

verus! {

/// Where the loop stands.
#[derive(Clone, Copy, Debug, PartialEq, Eq, Structural)]
pub enum Phase {
    /// A command execution and a fresh frame are due now.
    Refresh,
    /// Idle until the interval elapses, polling for input and resizes.
    Waiting,
    /// The loop is over; the screen is to be restored.
    Done,
}

/// What one polling slice observed while waiting.
#[derive(Clone, Copy, Debug, PartialEq, Eq, Structural)]
pub enum WaitEvent {
    /// Nothing happened; one sleep slice went by.
    Slice,
    /// The quit key was pressed.
    Quit,
    /// The terminal was resized.
    Resize,
}

/// What the loop must do next after a poll.
#[derive(Clone, Copy, Debug, PartialEq, Eq, Structural)]
pub enum WaitStep {
    /// Keep sleeping out the interval.
    KeepWaiting,
    /// Redraw the current frame at the new size; do not run the command.
    Redraw,
    /// The interval is up: run the command again and render.
    RunAgain,
    /// Quit: restore the screen and stop.
    Stop,
}

/// The scheduler: the configured interval, the polling slice, and how much
/// of the current interval has been slept away.
pub struct Scheduler {
    pub interval_ms: u64,
    pub slice_ms: u64,
    pub elapsed_ms: u64,
    pub phase: Phase,
}

/// The polling slice for an interval: a quarter of it, capped at a small
/// constant so quit and resize stay responsive, and at least one
/// millisecond so waiting always makes progress.
pub open spec fn spec_slice_ms(interval_ms: u64) -> u64 {
    if interval_ms / 4 == 0 {
        1u64
    } else if interval_ms / 4 > 10 {
        10u64
    } else {
        interval_ms / 4
    }
}

impl Scheduler {
    /// The scheduler's invariant: slices make progress, and while waiting
    /// the accumulated time has not yet reached the interval (a zero
    /// interval leaves it pinned at zero and refreshes every slice).
    pub open spec fn wf(self) -> bool {
        &&& self.slice_ms >= 1
        &&& self.phase == Phase::Waiting ==> self.elapsed_ms < self.interval_ms
            || self.elapsed_ms == 0
    }

    /// A fresh scheduler: the first execution is due immediately.
    pub fn new(interval_ms: u64) -> (s: Scheduler)
        ensures
            s.wf(),
            s.interval_ms == interval_ms,
            s.slice_ms == spec_slice_ms(interval_ms),
            s.elapsed_ms == 0,
            s.phase == Phase::Refresh,
    {
        let q = interval_ms / 4;
        let slice_ms: u64 = if q == 0 {
            1
        } else if q > 10 {
            10
        } else {
            q
        };
        Scheduler { interval_ms, slice_ms, elapsed_ms: 0, phase: Phase::Refresh }
    }

    /// Called once the due frame is drawn: the wait for the next refresh
    /// starts from zero.
    pub fn frame_drawn(&mut self)
        requires
            old(self).phase == Phase::Refresh,
            old(self).wf(),
        ensures
            final(self).wf(),
            final(self).phase == Phase::Waiting,
            final(self).elapsed_ms == 0,
            final(self).interval_ms == old(self).interval_ms,
            final(self).slice_ms == old(self).slice_ms,
    {
        self.phase = Phase::Waiting;
        self.elapsed_ms = 0;
    }

    /// One wait-loop poll. Quit stops the loop in this very slice, without
    /// waiting out the interval; a resize redraws the current frame at the
    /// new size without re-executing the command and without touching the
    /// clock; an elapsed slice accumulates, and the moment the accumulated
    /// time reaches the interval a new execution is due.
    pub fn poll(&mut self, ev: WaitEvent) -> (step: WaitStep)
        requires
            old(self).phase == Phase::Waiting,
            old(self).wf(),
        ensures
            final(self).wf(),
            final(self).interval_ms == old(self).interval_ms,
            final(self).slice_ms == old(self).slice_ms,
            ev == WaitEvent::Quit ==> step == WaitStep::Stop && final(self).phase == Phase::Done,
            ev == WaitEvent::Resize ==> step == WaitStep::Redraw && *final(self) == *old(self),
            ev == WaitEvent::Slice && old(self).elapsed_ms + old(self).slice_ms
                >= old(self).interval_ms ==> step == WaitStep::RunAgain && final(self).phase
                == Phase::Refresh && final(self).elapsed_ms == 0,
            ev == WaitEvent::Slice && old(self).elapsed_ms + old(self).slice_ms < old(
                self,
            ).interval_ms ==> step == WaitStep::KeepWaiting && final(self).phase == Phase::Waiting
                && final(self).elapsed_ms == old(self).elapsed_ms + old(self).slice_ms,
    {
        match ev {
            WaitEvent::Quit => {
                self.phase = Phase::Done;
                WaitStep::Stop
            },
            WaitEvent::Resize => WaitStep::Redraw,
            WaitEvent::Slice => {
                if self.interval_ms - self.elapsed_ms <= self.slice_ms {
                    self.phase = Phase::Refresh;
                    self.elapsed_ms = 0;
                    WaitStep::RunAgain
                } else {
                    self.elapsed_ms = self.elapsed_ms + self.slice_ms;
                    WaitStep::KeepWaiting
                }
            },
        }
    }
}

/// When a refresh fires, the time slept since the last frame is within one
/// polling slice of the configured interval: at least the interval, and
/// less than the interval plus one slice (equal only for a zero interval,
/// where every slice refreshes).
pub proof fn lemma_refresh_within_slice(s: Scheduler)
    requires
        s.wf(),
        s.phase == Phase::Waiting,
        s.elapsed_ms + s.slice_ms >= s.interval_ms,
    ensures
        s.interval_ms <= s.elapsed_ms + s.slice_ms <= s.interval_ms + s.slice_ms,
{
}

} // verus!
