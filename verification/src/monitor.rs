//! Source monitors: what becomes of each result of a probe, under each of
//! the three scheduling disciplines. The monitor decides; the probing itself,
//! and the waiting between probes, is done around it.

use crate::detector::{differs, ChangeDetector, Fingerprint};
use crate::failure::Failure;
use vstd::prelude::*;

verus! {

/// How a source is driven.
#[derive(Clone, Copy, Debug, PartialEq, Eq, Structural)]
pub enum Discipline {
    /// The source is probed at a fixed interval; a reading is sent on where
    /// it differs from the one before.
    Polling,
    /// The source is probed after each matching line of a stream of change
    /// notices; a reading is sent on where it differs from the one before.
    Subscription,
    /// The source is probed after each notice that its file was written;
    /// every reading is sent on.
    Watch,
}

/// What the monitor makes of one result of its probe.
#[derive(Clone, Copy, Debug, PartialEq, Eq, Structural)]
pub enum Verdict {
    /// The reading is to be sent on as an event.
    Emit,
    /// The reading is the same as the one before: nothing is sent.
    Quiet,
    /// The source has become unavailable with this result: the monitor ends
    /// here, which is to be logged, and it will not probe again.
    Lost,
    /// The monitor had ended before.
    Ended,
}

/// The monitor of one source.
pub struct SourceMonitor<T: Fingerprint> {
    pub discipline: Discipline,
    pub detector: ChangeDetector<T>,
    /// Whether the monitor still runs.
    pub alive: bool,
}

/// The verdict on a result: `reading` is the view of what the probe
/// returned, or `None` where the probe failed; `last` is the view of the
/// reading remembered from before.
pub open spec fn verdict_on<V>(
    discipline: Discipline,
    alive: bool,
    last: Option<V>,
    reading: Option<V>,
) -> Verdict {
    if !alive {
        Verdict::Ended
    } else {
        match reading {
            None => Verdict::Lost,
            Some(r) => if discipline == Discipline::Watch || differs(last, r) {
                Verdict::Emit
            } else {
                Verdict::Quiet
            },
        }
    }
}

impl<T: Fingerprint> SourceMonitor<T> {
    /// A running monitor that has seen no reading yet.
    pub fn new(discipline: Discipline) -> (m: Self)
        ensures
            m.discipline == discipline,
            m.alive,
            m.detector.last() is None,
    {
        SourceMonitor { discipline, detector: ChangeDetector::new(), alive: true }
    }

    /// Whether the source is to be probed at all: only while the monitor
    /// runs.
    pub fn wants_probe(&self) -> (r: bool)
        ensures
            r == self.alive,
    {
        self.alive
    }

    /// Takes one result of the probe and says what is to be done with it. A
    /// monitor that has ended stays as it is. A failed probe ends the
    /// monitor. A reading is remembered, and is sent on where it differs
    /// from the remembered one, or in any case under the watch discipline.
    pub fn on_result(&mut self, result: Result<T, Failure>) -> (verdict: Verdict)
        ensures
            verdict == verdict_on(
                old(self).discipline,
                old(self).alive,
                old(self).detector.last(),
                match result {
                    Ok(r) => Some(r@),
                    Err(_) => None,
                },
            ),
            final(self).discipline == old(self).discipline,
            final(self).alive == (old(self).alive && result is Ok),
            final(self).detector.last() == (match result {
                Ok(r) if old(self).alive => Some(r@),
                _ => old(self).detector.last(),
            }),
    {
        if !self.alive {
            return Verdict::Ended;
        }
        match result {
            Err(_) => {
                self.alive = false;
                Verdict::Lost
            },
            Ok(reading) => {
                let changed = self.detector.observe(reading);
                if changed {
                    Verdict::Emit
                } else {
                    match self.discipline {
                        Discipline::Watch => Verdict::Emit,
                        _ => Verdict::Quiet,
                    }
                }
            },
        }
    }

    /// The stream or the watch behind the source has closed: the monitor
    /// ends. Tells whether it was still running.
    pub fn on_closed(&mut self) -> (was_alive: bool)
        ensures
            was_alive == old(self).alive,
            !final(self).alive,
            final(self).discipline == old(self).discipline,
            final(self).detector.last() == old(self).detector.last(),
    {
        let was_alive = self.alive;
        self.alive = false;
        was_alive
    }
}

/// Idempotence: a running monitor that polls or subscribes sends a reading
/// on when it sees it first, and keeps quiet when the same reading follows.
pub proof fn lemma_same_reading_is_quiet<V>(discipline: Discipline, last: Option<V>, reading: V)
    requires
        discipline != Discipline::Watch,
    ensures
        verdict_on(discipline, true, None, Some(reading)) == Verdict::Emit,
        verdict_on(discipline, true, Some(reading), Some(reading)) == Verdict::Quiet,
        verdict_on(discipline, true, last, Some(reading)) == Verdict::Emit
            ==> verdict_on(discipline, true, Some(reading), Some(reading)) == Verdict::Quiet,
{
}

} // verus!
