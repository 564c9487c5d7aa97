//! Animation: a tick-driven stepper that moves a size toward a target and
//! reports, exactly once, that it has arrived.

use vstd::prelude::*;

verus! {

/// What one tick of an [`Animation`] did.
#[derive(Clone, Copy, Debug, PartialEq, Eq, Structural)]
pub enum Tick {
    /// The size moved to the given value and has not reached the target.
    Moved(i32),
    /// The size is the target, given here: the animation is over, and its
    /// completion is to be acted on now.
    Completed(i32),
    /// The animation was over before this tick.
    Idle,
}

/// The state of one element's animation.
#[derive(Clone, Copy, Debug, PartialEq, Eq)]
pub struct Animation {
    /// The size now.
    pub current: i32,
    /// The size to reach.
    pub target: i32,
    /// By how much one tick changes the size. A step of zero counts as one.
    pub step: u32,
    /// Whether the completion has been reported.
    pub finished: bool,
}

/// `current` moved toward `target` by `step`, without passing it.
pub open spec fn toward(current: int, target: int, step: int) -> int {
    if current < target {
        if current + step < target {
            current + step
        } else {
            target
        }
    } else {
        if current - step > target {
            current - step
        } else {
            target
        }
    }
}

/// How far `current` is from `target`.
pub open spec fn distance(current: int, target: int) -> int {
    if current < target {
        target - current
    } else {
        current - target
    }
}

impl Animation {
    /// By how much one tick changes the size: the step, and one where the
    /// step is zero.
    pub open spec fn pace(self) -> int {
        if self.step == 0 {
            1
        } else {
            self.step as int
        }
    }

    /// The state after one tick.
    pub open spec fn ticked(self) -> Animation {
        if self.finished {
            self
        } else {
            let next = toward(self.current as int, self.target as int, self.pace()) as i32;
            Animation {
                current: next,
                target: self.target,
                step: self.step,
                finished: next == self.target,
            }
        }
    }

    /// What one tick reports.
    pub open spec fn tick_outcome(self) -> Tick {
        if self.finished {
            Tick::Idle
        } else {
            let next = toward(self.current as int, self.target as int, self.pace()) as i32;
            if next == self.target {
                Tick::Completed(next)
            } else {
                Tick::Moved(next)
            }
        }
    }

    /// The state after `n` ticks.
    pub open spec fn ticked_times(self, n: nat) -> Animation
        decreases n,
    {
        if n == 0 {
            self
        } else {
            self.ticked_times((n - 1) as nat).ticked()
        }
    }

    /// The number of the tick that completes a running animation: as many
    /// ticks as steps are needed to cover the distance, and one tick where
    /// the size is at the target from the start.
    pub open spec fn ticks_needed(self) -> nat {
        let d = distance(self.current as int, self.target as int);
        if d == 0 {
            1
        } else {
            ((d + self.pace() - 1) / self.pace()) as nat
        }
    }

    /// A running animation from `current` to `target`; `None` where `step`
    /// is zero.
    pub fn new(current: i32, target: i32, step: u32) -> (a: Option<Self>)
        ensures
            step == 0 <==> a is None,
            a matches Some(x) ==> x == (Animation { current, target, step, finished: false }),
    {
        if step == 0 {
            None
        } else {
            Some(Animation { current, target, step, finished: false })
        }
    }

    /// A running animation from `current` to `target` in steps of one.
    pub open spec fn unit_spec(current: i32, target: i32) -> Animation {
        Animation { current, target, step: 1, finished: false }
    }

    /// A running animation from `current` to `target` in steps of one.
    #[verifier::when_used_as_spec(unit_spec)]
    pub fn unit(current: i32, target: i32) -> (a: Self)
        ensures
            a == Self::unit_spec(current, target),
    {
        Animation { current, target, step: 1, finished: false }
    }

    /// Whether the animation still has its completion to report.
    pub fn is_running(&self) -> (r: bool)
        ensures
            r == !self.finished,
    {
        !self.finished
    }

    /// One tick: moves the size toward the target and reports what happened.
    pub fn tick(&mut self) -> (outcome: Tick)
        ensures
            *final(self) == old(self).ticked(),
            outcome == old(self).tick_outcome(),
    {
        if self.finished {
            return Tick::Idle;
        }
        let current: i64 = self.current as i64;
        let target: i64 = self.target as i64;
        let step: i64 = if self.step == 0 {
            1
        } else {
            self.step as i64
        };
        let next: i64 = if current < target {
            if current + step < target {
                current + step
            } else {
                target
            }
        } else {
            if current - step > target {
                current - step
            } else {
                target
            }
        };
        self.current = next as i32;
        if next == target {
            self.finished = true;
            Tick::Completed(next as i32)
        } else {
            Tick::Moved(next as i32)
        }
    }
}

/// A tick of a running animation brings the size nearer by one step, or to
/// the target.
proof fn lemma_tick_progress(a: Animation)
    requires
        !a.finished,
    ensures
        a.ticks_needed() >= 1,
        a.ticked().target == a.target,
        a.ticked().step == a.step,
        a.ticks_needed() == 1 ==> a.ticked().finished && a.ticked().current == a.target,
        a.ticks_needed() > 1 ==> !a.ticked().finished && a.ticked().ticks_needed()
            == a.ticks_needed() - 1,
{
    let d = distance(a.current as int, a.target as int);
    let s = a.pace();
    let next = toward(a.current as int, a.target as int, s);
    assert(i32::MIN <= next <= i32::MAX);
    if d == 0 {
    } else {
        let q = (d + s - 1) / s;
        assert(q >= 1 && (q == 1 <==> d <= s)) by (nonlinear_arith)
            requires
                d >= 1,
                s >= 1,
                q == (d + s - 1) / s,
        ;
        if d > s {
            let d2 = distance(next, a.target as int);
            assert(d2 == d - s);
            assert((d2 + s - 1) / s == q - 1) by (nonlinear_arith)
                requires
                    d2 == d - s,
                    s >= 1,
                    q == (d + s - 1) / s,
            ;
        }
    }
}

/// Completion: a running animation reports `Moved` on every tick before tick
/// number `ticks_needed()`, reports `Completed` with the target on that
/// tick, and is idle on every tick after it. So the completion comes exactly
/// once, and never before the size is at the target.
pub proof fn lemma_completes_exactly_once(a: Animation, k: nat)
    requires
        !a.finished,
    ensures
        k < a.ticks_needed() ==> !a.ticked_times(k).finished && a.ticked_times(k).ticks_needed()
            == a.ticks_needed() - k,
        k + 1 < a.ticks_needed() ==> a.ticked_times(k).tick_outcome() is Moved,
        k + 1 == a.ticks_needed() ==> a.ticked_times(k).tick_outcome() == Tick::Completed(a.target),
        k >= a.ticks_needed() ==> a.ticked_times(k).tick_outcome() == Tick::Idle
            && a.ticked_times(k).current == a.target,
        a.ticked_times(k).target == a.target,
    decreases k,
{
    if k == 0 {
        lemma_tick_progress(a);
    } else {
        let j = (k - 1) as nat;
        lemma_completes_exactly_once(a, j);
        let b = a.ticked_times(j);
        if !b.finished {
            lemma_tick_progress(b);
            if !b.ticked().finished {
                lemma_tick_progress(b.ticked());
            }
        }
    }
}

/// An animation in steps of one reaches a target at distance `d >= 1` on
/// tick number `d`.
pub proof fn lemma_unit_steps(a: Animation)
    requires
        a.step == 1,
        a.current != a.target,
    ensures
        a.ticks_needed() == distance(a.current as int, a.target as int),
{
}

} // verus!
