//! The notification banner: an element that grows to the width of an
//! arriving notification, shows it, and shrinks to nothing before the next
//! one grows in.
//!
//! Animations of the banner never overlap. An arrival while the banner grows
//! or shows a notification turns it to shrinking, from the width it has at
//! that moment; the newest arrival is the one that grows in afterwards.

use crate::animation::{Animation, Tick};
use crate::notification::Notification;
use crate::render::{Action, Content, Element, RenderCommand};
use vstd::prelude::*;

verus! {

/// For how long a notification is shown, in milliseconds.
pub const BANNER_SHOW_MS: u64 = 3000;

/// The period of the animation ticks, in milliseconds.
pub const TICK_MS: u64 = 2;

/// The state of the banner.
#[derive(Clone, Debug, PartialEq, Eq)]
pub enum Banner {
    /// Nothing is shown and the width is zero.
    Empty,
    /// The natural width of `next` has been asked for.
    Measuring { next: Notification },
    /// The banner grows; `next` is attached when it has its width.
    Growing { animation: Animation, next: Notification },
    /// A notification is attached.
    Shown { width: i32 },
    /// Nothing is attached and the banner shrinks; `next`, if there is one,
    /// grows in afterwards.
    Shrinking { animation: Animation, next: Option<Notification> },
}

/// The command that sets the width of the banner.
pub open spec fn set_width(width: i32) -> Action {
    Action::Render(RenderCommand::SetWidth(Element::Banner, width))
}

/// The command that detaches what the banner holds.
pub open spec fn detach() -> Action {
    Action::Render(RenderCommand::DetachAll(Element::Banner))
}

/// The command that attaches `n` to the banner.
pub open spec fn attach(n: Notification) -> Action {
    Action::Render(RenderCommand::AttachChild(Element::Banner, Content::Notification(n)))
}

/// What follows a shrink: the next notification is measured, or the banner
/// is empty. `done` holds the actions of the last tick.
pub open spec fn after_shrink(next: Option<Notification>, done: Seq<Action>) -> (
    Banner,
    Seq<Action>,
) {
    match next {
        Some(n) => (Banner::Measuring { next: n }, done.push(Action::Measure(n))),
        None => (Banner::Empty, done),
    }
}

impl Banner {
    /// The width of the banner.
    pub open spec fn width_spec(self) -> i32 {
        match self {
            Banner::Empty => 0,
            Banner::Measuring { .. } => 0,
            Banner::Growing { animation, .. } => animation.current,
            Banner::Shown { width } => width,
            Banner::Shrinking { animation, .. } => animation.current,
        }
    }

    /// Whether an animation is in flight, so that ticks are wanted.
    pub open spec fn animating(self) -> bool {
        self is Growing || self is Shrinking
    }

    /// The banner and the actions after the arrival of `n`.
    pub open spec fn arrived(self, n: Notification) -> (Banner, Seq<Action>) {
        match self {
            Banner::Empty => (Banner::Measuring { next: n }, seq![Action::Measure(n)]),
            Banner::Measuring { .. } => (Banner::Measuring { next: n }, seq![Action::Measure(n)]),
            Banner::Growing { animation, .. } => (
                Banner::Shrinking {
                    animation: Animation::unit(animation.current, 0),
                    next: Some(n),
                },
                Seq::empty(),
            ),
            Banner::Shown { width } => (
                Banner::Shrinking { animation: Animation::unit(width, 0), next: Some(n) },
                seq![detach()],
            ),
            Banner::Shrinking { animation, .. } => (
                Banner::Shrinking { animation, next: Some(n) },
                Seq::empty(),
            ),
        }
    }

    /// The banner after the natural width that was asked for has come: it
    /// grows from zero to that width, or stays at zero where the width is
    /// negative. A width that was not asked for changes nothing.
    pub open spec fn measured(self, width: i32) -> Banner {
        match self {
            Banner::Measuring { next } => Banner::Growing {
                animation: Animation::unit(
                    0,
                    if width > 0 {
                        width
                    } else {
                        0
                    },
                ),
                next,
            },
            other => other,
        }
    }

    /// The banner and the actions after one tick, and whether a notification
    /// was attached by it.
    pub open spec fn ticked(self) -> (Banner, Seq<Action>, bool) {
        match self {
            Banner::Growing { animation, next } => match animation.tick_outcome() {
                Tick::Moved(w) => (
                    Banner::Growing { animation: animation.ticked(), next },
                    seq![set_width(w)],
                    false,
                ),
                Tick::Completed(w) => (
                    Banner::Shown { width: w },
                    seq![set_width(w), attach(next), Action::Cue],
                    true,
                ),
                Tick::Idle => (
                    Banner::Shown { width: animation.current },
                    seq![attach(next), Action::Cue],
                    true,
                ),
            },
            Banner::Shrinking { animation, next } => match animation.tick_outcome() {
                Tick::Moved(w) => (
                    Banner::Shrinking { animation: animation.ticked(), next },
                    seq![set_width(w)],
                    false,
                ),
                Tick::Completed(w) => {
                    let (banner, actions) = after_shrink(next, seq![set_width(w)]);
                    (banner, actions, false)
                },
                Tick::Idle => {
                    let (banner, actions) = after_shrink(next, Seq::empty());
                    (banner, actions, false)
                },
            },
            other => (other, Seq::empty(), false),
        }
    }

    /// The banner and the actions after the time of showing has run out.
    pub open spec fn expired(self) -> (Banner, Seq<Action>) {
        match self {
            Banner::Shown { width } => (
                Banner::Shrinking { animation: Animation::unit(width, 0), next: None },
                seq![detach()],
            ),
            other => (other, Seq::empty()),
        }
    }

    /// Computes [`Banner::width_spec`].
    pub fn width(&self) -> (w: i32)
        ensures
            w == self.width_spec(),
    {
        match self {
            Banner::Empty => 0,
            Banner::Measuring { .. } => 0,
            Banner::Growing { animation, .. } => animation.current,
            Banner::Shown { width } => *width,
            Banner::Shrinking { animation, .. } => animation.current,
        }
    }

    /// Decides [`Banner::animating`].
    pub fn is_animating(&self) -> (r: bool)
        ensures
            r == self.animating(),
    {
        match self {
            Banner::Growing { .. } => true,
            Banner::Shrinking { .. } => true,
            _ => false,
        }
    }

    /// A notification arrives: computes [`Banner::arrived`].
    pub fn arrive(self, n: Notification) -> (r: (Banner, Vec<Action>))
        ensures
            r.0 == self.arrived(n).0,
            r.1@ == self.arrived(n).1,
    {
        let mut actions: Vec<Action> = Vec::new();
        match self {
            Banner::Empty => {
                actions.push(Action::Measure(n.duplicate()));
                assert(actions@ == seq![Action::Measure(n)]);
                (Banner::Measuring { next: n }, actions)
            },
            Banner::Measuring { .. } => {
                actions.push(Action::Measure(n.duplicate()));
                assert(actions@ == seq![Action::Measure(n)]);
                (Banner::Measuring { next: n }, actions)
            },
            Banner::Growing { animation, .. } => {
                assert(actions@ == Seq::<Action>::empty());
                (
                    Banner::Shrinking {
                        animation: Animation::unit(animation.current, 0),
                        next: Some(n),
                    },
                    actions,
                )
            },
            Banner::Shown { width } => {
                actions.push(Action::Render(RenderCommand::DetachAll(Element::Banner)));
                assert(actions@ == seq![detach()]);
                (Banner::Shrinking { animation: Animation::unit(width, 0), next: Some(n) }, actions)
            },
            Banner::Shrinking { animation, .. } => {
                assert(actions@ == Seq::<Action>::empty());
                (Banner::Shrinking { animation, next: Some(n) }, actions)
            },
        }
    }

    /// The natural width has been measured: computes [`Banner::measured`].
    pub fn on_measured(self, width: i32) -> (banner: Banner)
        ensures
            banner == self.measured(width),
    {
        match self {
            Banner::Measuring { next } => {
                let target: i32 = if width > 0 {
                    width
                } else {
                    0
                };
                Banner::Growing { animation: Animation::unit(0, target), next }
            },
            other => other,
        }
    }

    /// One tick of the animation: computes [`Banner::ticked`].
    pub fn tick(self) -> (r: (Banner, Vec<Action>, bool))
        ensures
            r.0 == self.ticked().0,
            r.1@ == self.ticked().1,
            r.2 == self.ticked().2,
    {
        let mut actions: Vec<Action> = Vec::new();
        match self {
            Banner::Growing { animation, next } => {
                let mut animation = animation;
                let before: i32 = animation.current;
                match animation.tick() {
                    Tick::Moved(w) => {
                        actions.push(Action::Render(RenderCommand::SetWidth(Element::Banner, w)));
                        assert(actions@ == seq![set_width(w)]);
                        (Banner::Growing { animation, next }, actions, false)
                    },
                    Tick::Completed(w) => {
                        actions.push(Action::Render(RenderCommand::SetWidth(Element::Banner, w)));
                        actions.push(
                            Action::Render(
                                RenderCommand::AttachChild(
                                    Element::Banner,
                                    Content::Notification(next),
                                ),
                            ),
                        );
                        actions.push(Action::Cue);
                        assert(actions@ == seq![set_width(w), attach(next), Action::Cue]);
                        (Banner::Shown { width: w }, actions, true)
                    },
                    Tick::Idle => {
                        actions.push(
                            Action::Render(
                                RenderCommand::AttachChild(
                                    Element::Banner,
                                    Content::Notification(next),
                                ),
                            ),
                        );
                        actions.push(Action::Cue);
                        assert(actions@ == seq![attach(next), Action::Cue]);
                        (Banner::Shown { width: before }, actions, true)
                    },
                }
            },
            Banner::Shrinking { animation, next } => {
                let mut animation = animation;
                match animation.tick() {
                    Tick::Moved(w) => {
                        actions.push(Action::Render(RenderCommand::SetWidth(Element::Banner, w)));
                        assert(actions@ == seq![set_width(w)]);
                        (Banner::Shrinking { animation, next }, actions, false)
                    },
                    Tick::Completed(w) => {
                        actions.push(Action::Render(RenderCommand::SetWidth(Element::Banner, w)));
                        assert(actions@ == seq![set_width(w)]);
                        let (banner, actions) = Self::finish_shrink(next, actions);
                        (banner, actions, false)
                    },
                    Tick::Idle => {
                        assert(actions@ == Seq::<Action>::empty());
                        let (banner, actions) = Self::finish_shrink(next, actions);
                        (banner, actions, false)
                    },
                }
            },
            other => {
                assert(actions@ == Seq::<Action>::empty());
                (other, actions, false)
            },
        }
    }

    /// Computes [`after_shrink`].
    fn finish_shrink(next: Option<Notification>, done: Vec<Action>) -> (r: (Banner, Vec<Action>))
        ensures
            r.0 == after_shrink(next, done@).0,
            r.1@ == after_shrink(next, done@).1,
    {
        let mut actions = done;
        match next {
            Some(n) => {
                actions.push(Action::Measure(n.duplicate()));
                (Banner::Measuring { next: n }, actions)
            },
            None => (Banner::Empty, actions),
        }
    }

    /// The time of showing has run out: computes [`Banner::expired`].
    pub fn expire(self) -> (r: (Banner, Vec<Action>))
        ensures
            r.0 == self.expired().0,
            r.1@ == self.expired().1,
    {
        let mut actions: Vec<Action> = Vec::new();
        match self {
            Banner::Shown { width } => {
                actions.push(Action::Render(RenderCommand::DetachAll(Element::Banner)));
                assert(actions@ == seq![detach()]);
                (Banner::Shrinking { animation: Animation::unit(width, 0), next: None }, actions)
            },
            other => {
                assert(actions@ == Seq::<Action>::empty());
                (other, actions)
            },
        }
    }
}

/// The banner after `k` ticks.
pub open spec fn ticked_times(banner: Banner, k: nat) -> Banner
    decreases k,
{
    if k == 0 {
        banner
    } else {
        ticked_times(banner, (k - 1) as nat).ticked().0
    }
}

/// Completion of a growth: a banner that grows with a running animation
/// keeps growing through every tick before tick number `ticks_needed()`; on
/// that tick it takes the target width, attaches the notification and gives
/// the cue; and on every tick after it nothing happens. So the notification is
/// attached exactly once, and not before the banner has its width.
pub proof fn lemma_growth_attaches_once(animation: Animation, next: Notification, k: nat)
    requires
        !animation.finished,
    ensures
        ({
            let banner = Banner::Growing { animation, next };
            let needed = animation.ticks_needed();
            let state = ticked_times(banner, k);
            &&& k < needed ==> state == (Banner::Growing {
                animation: animation.ticked_times(k),
                next,
            })
            &&& k + 1 < needed ==> state.ticked().1.len() == 1 && !state.ticked().2
            &&& k + 1 == needed ==> state.ticked() == (
                Banner::Shown { width: animation.target },
                seq![set_width(animation.target), attach(next), Action::Cue],
                true,
            )
            &&& k >= needed ==> state == (Banner::Shown { width: animation.target })
                && state.ticked() == (state, Seq::<Action>::empty(), false)
        }),
    decreases k,
{
    crate::animation::lemma_completes_exactly_once(animation, k);
    if k > 0 {
        lemma_growth_attaches_once(animation, next, (k - 1) as nat);
        crate::animation::lemma_completes_exactly_once(animation, (k - 1) as nat);
    }
}

} // verus!
