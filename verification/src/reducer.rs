//! The reducer: the single consumer of events. It holds what is rendered,
//! arms and polls the timers of the transient elements, drives the banner's
//! animation, and answers every input with the actions to carry out.
//!
//! The reducer does not wait and does not draw. Who runs it hands it the
//! events as they arrive, the time, the ticks and the measured widths, and
//! carries out the actions it returns.

use crate::banner::{Banner, BANNER_SHOW_MS};
use crate::debounce::{due_time, DebounceTimer, OSD_WINDOW_MS};
use crate::detector::{differs, ChangeDetector};
use crate::event::Event;
use crate::failure::Failure;
use crate::launcher::LauncherEntry;
use crate::layout::{build, grid_cells, GridCell, Layout};
use crate::network::NetworkStatus;
use crate::notification::{Notification, NotificationView};
use crate::power::BatteryReading;
use crate::render::{
    refill, refill_with, Action, Content, Element, RenderCommand, StyleTag,
};
use crate::status::{append_status_icons, status_contents};
use vstd::prelude::*;

verus! {

/// The state of the reducer.
pub struct Reducer {
    osd_timer: DebounceTimer,
    banner_timer: DebounceTimer,
    banner: Banner,
    shown: ChangeDetector<Notification>,
    network: Option<NetworkStatus>,
    battery: Option<BatteryReading>,
    desktop_width: u32,
    desktop_height: u32,
}

/// The mathematical view of a [`Reducer`].
pub struct ReducerView {
    /// The hide timer of the on-screen display.
    pub osd_timer: DebounceTimer,
    /// The timer that ends the showing of a notification.
    pub banner_timer: DebounceTimer,
    pub banner: Banner,
    /// The notification that was rendered last.
    pub shown: Option<NotificationView>,
    /// The last known state of the network.
    pub network: Option<NetworkStatus>,
    /// The last known state of the battery.
    pub battery: Option<BatteryReading>,
    /// The size of the container of the desktop grid.
    pub desktop_width: u32,
    pub desktop_height: u32,
}

impl View for Reducer {
    type V = ReducerView;

    closed spec fn view(&self) -> ReducerView {
        ReducerView {
            osd_timer: self.osd_timer,
            banner_timer: self.banner_timer,
            banner: self.banner,
            shown: self.shown.last(),
            network: self.network,
            battery: self.battery,
            desktop_width: self.desktop_width,
            desktop_height: self.desktop_height,
        }
    }
}

/// The state in which a reducer starts.
pub open spec fn initial() -> ReducerView {
    ReducerView {
        osd_timer: DebounceTimer { window_ms: OSD_WINDOW_MS, deadline: None },
        banner_timer: DebounceTimer { window_ms: BANNER_SHOW_MS, deadline: None },
        banner: Banner::Empty,
        shown: None,
        network: None,
        battery: None,
        desktop_width: 0,
        desktop_height: 0,
    }
}

/// What is rendered before the first event: the on-screen display is hidden,
/// its level bar is at zero, and the microphone indicator is hidden.
pub open spec fn startup() -> Seq<Action> {
    seq![
        Action::Render(RenderCommand::SetVisible(Element::Osd, false)),
        Action::Render(RenderCommand::SetValue(Element::LevelBar, 0)),
        Action::Render(RenderCommand::SetVisible(Element::MicIcon, false)),
    ]
}

/// The command that shows the on-screen display.
pub open spec fn show_osd() -> Action {
    Action::Render(RenderCommand::SetVisible(Element::Osd, true))
}

/// The command that hides the on-screen display.
pub open spec fn hide_osd() -> Action {
    Action::Render(RenderCommand::SetVisible(Element::Osd, false))
}

/// The actions for a change of volume: the level bar shows the level in the
/// volume style, or zero in the muted style where the sink is muted, and the
/// on-screen display is shown.
pub open spec fn volume_actions(level: u8, muted: bool) -> Seq<Action> {
    seq![
        Action::Render(
            RenderCommand::SetValue(
                Element::LevelBar,
                if muted {
                    0
                } else {
                    level
                },
            ),
        ),
        Action::Render(
            RenderCommand::SetClass(
                Element::LevelBar,
                if muted {
                    StyleTag::Muted
                } else {
                    StyleTag::Volume
                },
            ),
        ),
        show_osd(),
    ]
}

/// The actions for a change of brightness: the level bar shows the level in
/// the brightness style, and the on-screen display is shown.
pub open spec fn brightness_actions(level: u8) -> Seq<Action> {
    seq![
        Action::Render(RenderCommand::SetValue(Element::LevelBar, level)),
        Action::Render(RenderCommand::SetClass(Element::LevelBar, StyleTag::Brightness)),
        show_osd(),
    ]
}

/// The actions for a change of the microphone's mute flag: the indicator is
/// visible while the microphone is muted, and the on-screen display is shown.
pub open spec fn mic_actions(muted: bool) -> Seq<Action> {
    seq![Action::Render(RenderCommand::SetVisible(Element::MicIcon, muted)), show_osd()]
}

/// What the launcher shows for `entries`: one icon for each, in order, and
/// the placeholder where there is none.
pub open spec fn launcher_contents(entries: Seq<LauncherEntry>) -> Seq<Content> {
    if entries.len() == 0 {
        seq![Content::Placeholder]
    } else {
        entries.map_values(|e: LauncherEntry| Content::LauncherIcon(e))
    }
}

/// What the desktop grid shows for `cells`.
pub open spec fn desktop_contents(cells: Seq<GridCell>) -> Seq<Content> {
    cells.map_values(|c: GridCell| Content::Cell(c))
}

impl ReducerView {
    /// The state and the actions after `event`, which arrives at time `now`.
    pub open spec fn applied(self, event: Event, now: u64) -> (ReducerView, Seq<Action>) {
        match event {
            Event::VolumeChanged { level, muted } => (
                ReducerView { osd_timer: self.osd_timer.armed(now), ..self },
                volume_actions(level, muted),
            ),
            Event::BrightnessChanged { level } => (
                ReducerView { osd_timer: self.osd_timer.armed(now), ..self },
                brightness_actions(level),
            ),
            Event::MicMuteChanged { muted } => (
                ReducerView { osd_timer: self.osd_timer.armed(now), ..self },
                mic_actions(muted),
            ),
            Event::NetworkChanged { classification } => (
                ReducerView { network: Some(classification), ..self },
                refill(Element::StatusIcons, status_contents(Some(classification), self.battery)),
            ),
            Event::BatteryChanged { percent, status } => {
                let reading = BatteryReading { percent, status };
                (
                    ReducerView { battery: Some(reading), ..self },
                    refill(Element::StatusIcons, status_contents(self.network, Some(reading))),
                )
            },
            Event::NotificationArrived { summary, body, urgency, appname } => {
                let n = Notification { summary, body, urgency, appname };
                if differs(self.shown, n@) {
                    (
                        ReducerView {
                            shown: Some(n@),
                            banner: self.banner.arrived(n).0,
                            ..self
                        },
                        self.banner.arrived(n).1,
                    )
                } else {
                    (self, Seq::empty())
                }
            },
            Event::LauncherConfigChanged { entries } => (
                self,
                refill(Element::Launcher, launcher_contents(entries@)),
            ),
            Event::LayoutConfigChanged { fill, items } => (
                self,
                refill(
                    Element::Desktop,
                    desktop_contents(
                        grid_cells(Layout { fill, items }, self.desktop_width, self.desktop_height),
                    ),
                ),
            ),
        }
    }

    /// The state and the actions after the timers were polled at time `now`:
    /// the on-screen display is hidden where its timer fires, and the banner
    /// ends its showing where its timer fires.
    pub open spec fn timed(self, now: u64) -> (ReducerView, Seq<Action>) {
        let hide = if self.osd_timer.fires(now) {
            seq![hide_osd()]
        } else {
            Seq::empty()
        };
        let (banner, drop) = if self.banner_timer.fires(now) {
            self.banner.expired()
        } else {
            (self.banner, Seq::empty())
        };
        (
            ReducerView {
                osd_timer: self.osd_timer.polled(now),
                banner_timer: self.banner_timer.polled(now),
                banner,
                ..self
            },
            hide + drop,
        )
    }

    /// The state and the actions after one tick of the animation at time
    /// `now`. Where the tick attaches a notification, the time of its showing
    /// begins.
    pub open spec fn ticked(self, now: u64) -> (ReducerView, Seq<Action>) {
        let (banner, actions, attached) = self.banner.ticked();
        (
            ReducerView {
                banner,
                banner_timer: if attached {
                    self.banner_timer.armed(now)
                } else {
                    self.banner_timer
                },
                ..self
            },
            actions,
        )
    }

    /// The state after a measured width has come.
    pub open spec fn measured(self, width: i32) -> ReducerView {
        ReducerView { banner: self.banner.measured(width), ..self }
    }

    /// The state after the size of the desktop's container has become known.
    pub open spec fn resized(self, width: u32, height: u32) -> ReducerView {
        ReducerView { desktop_width: width, desktop_height: height, ..self }
    }

    /// Whether the timers have the quiet periods that a reducer starts with:
    /// two seconds for the on-screen display, three for the banner.
    pub open spec fn keeps_time(self) -> bool {
        self.osd_timer.window_ms == OSD_WINDOW_MS && self.banner_timer.window_ms == BANNER_SHOW_MS
    }

    /// The earliest pending deadline of the two timers.
    pub open spec fn deadline(self) -> Option<u64> {
        match (self.osd_timer.deadline, self.banner_timer.deadline) {
            (Some(a), Some(b)) => Some(
                if a <= b {
                    a
                } else {
                    b
                },
            ),
            (Some(a), None) => Some(a),
            (None, b) => b,
        }
    }
}

/// Computes [`launcher_contents`].
fn launcher_icons(entries: &Vec<LauncherEntry>) -> (contents: Vec<Content>)
    ensures
        contents@ == launcher_contents(entries@),
{
    let mut contents: Vec<Content> = Vec::new();
    if entries.len() == 0 {
        contents.push(Content::Placeholder);
        return contents;
    }
    let mut i: usize = 0;
    while i < entries.len()
        invariant
            i <= entries.len(),
            contents@ == entries@.take(i as int).map_values(
                |e: LauncherEntry| Content::LauncherIcon(e),
            ),
        decreases entries.len() - i,
    {
        assert(entries@.take(i + 1).map_values(|e: LauncherEntry| Content::LauncherIcon(e))
            == entries@.take(i as int).map_values(|e: LauncherEntry| Content::LauncherIcon(e)).push(
            Content::LauncherIcon(entries@[i as int]),
        ));
        contents.push(Content::LauncherIcon(entries[i].duplicate()));
        i += 1;
    }
    assert(entries@.take(entries@.len() as int) == entries@);
    contents
}

/// Computes [`desktop_contents`].
fn desktop_cells(cells: &Vec<GridCell>) -> (contents: Vec<Content>)
    ensures
        contents@ == desktop_contents(cells@),
{
    let mut contents: Vec<Content> = Vec::new();
    let mut i: usize = 0;
    while i < cells.len()
        invariant
            i <= cells.len(),
            contents@ == desktop_contents(cells@.take(i as int)),
        decreases cells.len() - i,
    {
        assert(desktop_contents(cells@.take(i + 1)) == desktop_contents(
            cells@.take(i as int),
        ).push(Content::Cell(cells@[i as int])));
        contents.push(Content::Cell(cells[i].duplicate()));
        i += 1;
    }
    assert(cells@.take(cells@.len() as int) == cells@);
    contents
}

/// Computes [`volume_actions`], [`brightness_actions`] or [`mic_actions`]:
/// a value for the level bar, if any, with its style, or the visibility of
/// the microphone indicator, and the showing of the on-screen display.
fn osd_actions(level: Option<(u8, StyleTag)>, mic: Option<bool>) -> (actions: Vec<Action>)
    ensures
        actions@ == (match level {
            Some((value, tag)) => seq![
                Action::Render(RenderCommand::SetValue(Element::LevelBar, value)),
                Action::Render(RenderCommand::SetClass(Element::LevelBar, tag)),
            ],
            None => Seq::empty(),
        }) + (match mic {
            Some(muted) => seq![Action::Render(RenderCommand::SetVisible(Element::MicIcon, muted))],
            None => Seq::empty(),
        }) + seq![show_osd()],
{
    let mut actions: Vec<Action> = Vec::new();
    match level {
        Some((value, tag)) => {
            actions.push(Action::Render(RenderCommand::SetValue(Element::LevelBar, value)));
            actions.push(Action::Render(RenderCommand::SetClass(Element::LevelBar, tag)));
        },
        None => {},
    }
    match mic {
        Some(muted) => {
            actions.push(Action::Render(RenderCommand::SetVisible(Element::MicIcon, muted)));
        },
        None => {},
    }
    actions.push(Action::Render(RenderCommand::SetVisible(Element::Osd, true)));
    actions
}

impl Reducer {
    /// A reducer before its first event.
    pub fn new() -> (r: Self)
        ensures
            r@ == initial(),
    {
        Reducer {
            osd_timer: DebounceTimer::new(OSD_WINDOW_MS),
            banner_timer: DebounceTimer::new(BANNER_SHOW_MS),
            banner: Banner::Empty,
            shown: ChangeDetector::new(),
            network: None,
            battery: None,
            desktop_width: 0,
            desktop_height: 0,
        }
    }

    /// What is to be rendered before the first event: computes [`startup`].
    pub fn startup_actions() -> (actions: Vec<Action>)
        ensures
            actions@ == startup(),
    {
        let mut actions: Vec<Action> = Vec::new();
        actions.push(Action::Render(RenderCommand::SetVisible(Element::Osd, false)));
        actions.push(Action::Render(RenderCommand::SetValue(Element::LevelBar, 0)));
        actions.push(Action::Render(RenderCommand::SetVisible(Element::MicIcon, false)));
        actions
    }

    /// Takes note of the size of the desktop's container.
    pub fn set_desktop_extent(&mut self, width: u32, height: u32)
        ensures
            final(self)@ == old(self)@.resized(width, height),
    {
        self.desktop_width = width;
        self.desktop_height = height;
    }

    /// Applies one event, which arrives at time `now` in milliseconds:
    /// computes [`ReducerView::applied`].
    pub fn apply(&mut self, event: Event, now: u64) -> (actions: Vec<Action>)
        ensures
            final(self)@ == old(self)@.applied(event, now).0,
            actions@ == old(self)@.applied(event, now).1,
    {
        match event {
            Event::VolumeChanged { level, muted } => {
                self.osd_timer.arm(now);
                if muted {
                    osd_actions(Some((0, StyleTag::Muted)), None)
                } else {
                    osd_actions(Some((level, StyleTag::Volume)), None)
                }
            },
            Event::BrightnessChanged { level } => {
                self.osd_timer.arm(now);
                osd_actions(Some((level, StyleTag::Brightness)), None)
            },
            Event::MicMuteChanged { muted } => {
                self.osd_timer.arm(now);
                osd_actions(None, Some(muted))
            },
            Event::NetworkChanged { classification } => {
                self.network = Some(classification);
                let icons = append_status_icons(&self.network, self.battery);
                refill_with(Element::StatusIcons, &icons)
            },
            Event::BatteryChanged { percent, status } => {
                self.battery = Some(BatteryReading { percent, status });
                let icons = append_status_icons(&self.network, self.battery);
                refill_with(Element::StatusIcons, &icons)
            },
            Event::NotificationArrived { summary, body, urgency, appname } => {
                let n = Notification { summary, body, urgency, appname };
                if self.shown.observe(n.duplicate()) {
                    let mut banner = Banner::Empty;
                    std::mem::swap(&mut self.banner, &mut banner);
                    let (next, actions) = banner.arrive(n);
                    self.banner = next;
                    actions
                } else {
                    Vec::new()
                }
            },
            Event::LauncherConfigChanged { entries } => {
                let contents = launcher_icons(&entries);
                refill_with(Element::Launcher, &contents)
            },
            Event::LayoutConfigChanged { fill, items } => {
                let layout = Layout { fill, items };
                let cells = build(&layout, self.desktop_width, self.desktop_height);
                let contents = desktop_cells(&cells);
                refill_with(Element::Desktop, &contents)
            },
        }
    }

    /// Takes what the event bus delivered: an event, or the failure to
    /// receive one, which means that the bus is closed because every monitor
    /// has ended. An event is applied; the answer then says to go on. On a
    /// failure nothing changes, and the answer says to stop.
    pub fn receive(
        &mut self,
        message: Result<Event, Failure>,
        now: u64,
    ) -> (r: (Vec<Action>, bool))
        ensures
            r.1 == message is Ok,
            match message {
                Ok(event) => final(self)@ == old(self)@.applied(event, now).0 && r.0@ == old(
                    self,
                )@.applied(event, now).1,
                Err(_) => final(self)@ == old(self)@ && r.0@ == Seq::<Action>::empty(),
            },
    {
        match message {
            Ok(event) => (self.apply(event, now), true),
            Err(_) => (Vec::new(), false),
        }
    }

    /// Polls the timers at time `now`: computes [`ReducerView::timed`].
    pub fn on_timer(&mut self, now: u64) -> (actions: Vec<Action>)
        ensures
            final(self)@ == old(self)@.timed(now).0,
            actions@ == old(self)@.timed(now).1,
    {
        let mut actions: Vec<Action> = Vec::new();
        if self.osd_timer.poll(now) {
            actions.push(Action::Render(RenderCommand::SetVisible(Element::Osd, false)));
        }
        let ghost hide = actions@;
        if self.banner_timer.poll(now) {
            let mut banner = Banner::Empty;
            std::mem::swap(&mut self.banner, &mut banner);
            let (next, mut drop) = banner.expire();
            self.banner = next;
            actions.append(&mut drop);
        } else {
            assert(actions@ == hide + Seq::<Action>::empty());
        }
        actions
    }

    /// One tick of the animation at time `now`: computes
    /// [`ReducerView::ticked`].
    pub fn on_tick(&mut self, now: u64) -> (actions: Vec<Action>)
        ensures
            final(self)@ == old(self)@.ticked(now).0,
            actions@ == old(self)@.ticked(now).1,
    {
        let mut banner = Banner::Empty;
        std::mem::swap(&mut self.banner, &mut banner);
        let (next, actions, attached) = banner.tick();
        self.banner = next;
        if attached {
            self.banner_timer.arm(now);
        }
        actions
    }

    /// Takes the natural width of the notification that was to be measured:
    /// computes [`ReducerView::measured`].
    pub fn on_measured(&mut self, width: i32)
        ensures
            final(self)@ == old(self)@.measured(width),
    {
        let mut banner = Banner::Empty;
        std::mem::swap(&mut self.banner, &mut banner);
        self.banner = banner.on_measured(width);
    }

    /// Whether the banner's animation is in flight, so that ticks are wanted.
    pub fn is_animating(&self) -> (r: bool)
        ensures
            r == self@.banner.animating(),
    {
        self.banner.is_animating()
    }

    /// The time at which the timers are to be polled next, if one is armed.
    pub fn next_deadline(&self) -> (deadline: Option<u64>)
        ensures
            deadline == self@.deadline(),
    {
        match (self.osd_timer.deadline, self.banner_timer.deadline) {
            (Some(a), Some(b)) => Some(
                if a <= b {
                    a
                } else {
                    b
                },
            ),
            (Some(a), None) => Some(a),
            (None, b) => b,
        }
    }

    /// The width of the banner.
    pub fn banner_width(&self) -> (w: i32)
        ensures
            w == self@.banner.width_spec(),
    {
        self.banner.width()
    }
}

/// Sets the surface up: a reducer before its first event, and what is to be
/// rendered before it.
pub fn activate() -> (r: (Reducer, Vec<Action>))
    ensures
        r.0@ == initial(),
        r.1@ == startup(),
{
    (Reducer::new(), Reducer::startup_actions())
}

/// The quiet periods never change: a reducer starts with them, and no
/// input alters them.
pub proof fn lemma_quiet_periods_are_kept(
    v: ReducerView,
    event: Event,
    now: u64,
    width: i32,
    desktop_width: u32,
    desktop_height: u32,
)
    requires
        v.keeps_time(),
    ensures
        initial().keeps_time(),
        v.applied(event, now).0.keeps_time(),
        v.timed(now).0.keeps_time(),
        v.ticked(now).0.keeps_time(),
        v.measured(width).keeps_time(),
        v.resized(desktop_width, desktop_height).keeps_time(),
{
}

/// Whether `event` is one of those that the on-screen display shows.
pub open spec fn concerns_osd(event: Event) -> bool {
    event is VolumeChanged || event is BrightnessChanged || event is MicMuteChanged
}

/// Debounce of the on-screen display: after two of its events, at `first_at`
/// and then at `second_at`, the display is hidden by the first poll that
/// comes a full quiet period after the second event, by no poll before it,
/// and by no poll after it.
pub proof fn lemma_two_events_one_hide(
    v: ReducerView,
    first: Event,
    first_at: u64,
    second: Event,
    second_at: u64,
    poll: u64,
    later: u64,
)
    requires
        concerns_osd(first),
        concerns_osd(second),
    ensures
        ({
            let state = v.applied(first, first_at).0.applied(second, second_at).0;
            let due = due_time(second_at, v.osd_timer.window_ms);
            let (after, actions) = state.timed(poll);
            &&& state.osd_timer.deadline == Some(due)
            &&& poll < due ==> after.osd_timer == state.osd_timer
            &&& poll < due && !state.banner_timer.fires(poll) ==> actions == Seq::<Action>::empty()
            &&& poll >= due ==> actions[0] == hide_osd() && !after.osd_timer.fires(later)
        }),
{
    let state = v.applied(first, first_at).0.applied(second, second_at).0;
    assert(v.applied(first, first_at).0.osd_timer.window_ms == v.osd_timer.window_ms);
    if !state.osd_timer.fires(poll) && !state.banner_timer.fires(poll) {
        assert(state.timed(poll).1 =~= Seq::<Action>::empty());
    }
}

} // verus!
