//! Debounce: the one-shot hide timer of a transient element. Arming it again
//! replaces the pending deadline, so that the element is hidden only after a
//! quiet period without further events.

use vstd::prelude::*;

verus! {

/// Quiet period after which the on-screen display is hidden, in milliseconds.
pub const OSD_WINDOW_MS: u64 = 2000;

/// The time at which a timer armed at `now` with quiet period `window` is
/// due. Times are milliseconds on a clock that never goes back; a deadline
/// that would not fit is the end of time.
pub open spec fn due_time(now: u64, window: u64) -> u64 {
    if now + window <= u64::MAX {
        (now + window) as u64
    } else {
        u64::MAX
    }
}

/// A cancellable one-shot timer bound to one element. It holds at most one
/// deadline at a time.
#[derive(Clone, Copy, Debug, PartialEq, Eq)]
pub struct DebounceTimer {
    /// The quiet period, in milliseconds.
    pub window_ms: u64,
    /// When the element is to be hidden, if the timer is armed.
    pub deadline: Option<u64>,
}

impl DebounceTimer {
    /// The timer as it is after being armed at `now`.
    pub open spec fn armed(self, now: u64) -> DebounceTimer {
        DebounceTimer { window_ms: self.window_ms, deadline: Some(due_time(now, self.window_ms)) }
    }

    /// Whether a poll at `now` fires the timer.
    pub open spec fn fires(self, now: u64) -> bool {
        self.deadline matches Some(d) && now >= d
    }

    /// The timer as it is after a poll at `now`.
    pub open spec fn polled(self, now: u64) -> DebounceTimer {
        if self.fires(now) {
            DebounceTimer { window_ms: self.window_ms, deadline: None }
        } else {
            self
        }
    }

    /// A timer with the given quiet period, not armed.
    pub fn new(window_ms: u64) -> (t: Self)
        ensures
            t == (DebounceTimer { window_ms, deadline: None }),
    {
        DebounceTimer { window_ms, deadline: None }
    }

    /// Whether a deadline is pending.
    pub fn is_armed(&self) -> (r: bool)
        ensures
            r == self.deadline is Some,
    {
        self.deadline.is_some()
    }

    /// Arms the timer at `now`: a pending deadline is cancelled first, then
    /// the new one is set. Tells whether there was one to cancel.
    pub fn arm(&mut self, now: u64) -> (cancelled: bool)
        ensures
            cancelled == old(self).deadline is Some,
            *final(self) == old(self).armed(now),
    {
        let cancelled = self.deadline.is_some();
        self.deadline = Some(now.saturating_add(self.window_ms));
        cancelled
    }

    /// Cancels a pending deadline. Tells whether there was one.
    pub fn cancel(&mut self) -> (cancelled: bool)
        ensures
            cancelled == old(self).deadline is Some,
            final(self).window_ms == old(self).window_ms,
            final(self).deadline is None,
    {
        let cancelled = self.deadline.is_some();
        self.deadline = None;
        cancelled
    }

    /// Asks at time `now` whether the element is to be hidden. The answer is
    /// yes exactly when a deadline is pending and has been reached; the timer
    /// is then no longer armed, so that it fires once.
    pub fn poll(&mut self, now: u64) -> (fired: bool)
        ensures
            fired == old(self).fires(now),
            *final(self) == old(self).polled(now),
    {
        match self.deadline {
            Some(d) => {
                if now >= d {
                    self.deadline = None;
                    true
                } else {
                    false
                }
            },
            None => false,
        }
    }
}

/// The timer after it has been armed at each of `times`, in order.
pub open spec fn armed_at_each(timer: DebounceTimer, times: Seq<u64>) -> DebounceTimer
    decreases times.len(),
{
    if times.len() == 0 {
        timer
    } else {
        armed_at_each(timer, times.drop_last()).armed(times.last())
    }
}

/// Only the last of a run of events counts: however many times the timer was
/// armed, it holds one deadline, a full quiet period after the last event,
/// and fires at no earlier time.
pub proof fn lemma_last_event_decides(timer: DebounceTimer, times: Seq<u64>, now: u64)
    requires
        times.len() > 0,
    ensures
        armed_at_each(timer, times).window_ms == timer.window_ms,
        armed_at_each(timer, times).deadline == Some(due_time(times.last(), timer.window_ms)),
        armed_at_each(timer, times).fires(now) <==> now >= due_time(times.last(), timer.window_ms),
    decreases times.len(),
{
    if times.len() > 1 {
        lemma_last_event_decides(timer, times.drop_last(), now);
    } else {
        assert(armed_at_each(timer, times.drop_last()) == timer);
    }
}

/// A timer that has fired does not fire again unless it is armed again.
pub proof fn lemma_fires_once(timer: DebounceTimer, now: u64, later: u64)
    requires
        timer.fires(now),
    ensures
        !timer.polled(now).fires(later),
{
}

/// A poll that does not fire leaves the timer as it was.
pub proof fn lemma_early_poll_changes_nothing(timer: DebounceTimer, now: u64)
    requires
        !timer.fires(now),
    ensures
        timer.polled(now) == timer,
{
}

} // verus!
