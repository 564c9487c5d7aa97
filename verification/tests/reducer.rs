use capsule::banner::{Banner, BANNER_SHOW_MS};
use capsule::event::Event;
use capsule::failure::Failure;
use capsule::launcher::LauncherEntry;
use capsule::layout::{GridCell, GridItem, Tile};
use capsule::network::{NetworkKind, NetworkStatus};
use capsule::notification::Notification;
use capsule::power::{BatteryReading, BatteryStatus};
use capsule::reducer::{activate, Reducer};
use capsule::render::{
    attach_each, refill_with, Action, Content, Element, RenderCommand, StyleTag,
};
use capsule::status::{
    append_status_icons, refresh_status_icons, start_status_icon_updater, STATUS_PERIOD_SECS,
};

fn render(command: RenderCommand) -> Action {
    Action::Render(command)
}

fn show_osd() -> Action {
    render(RenderCommand::SetVisible(Element::Osd, true))
}

fn hide_osd() -> Action {
    render(RenderCommand::SetVisible(Element::Osd, false))
}

fn arrival(summary: &str) -> Event {
    Event::NotificationArrived {
        summary: summary.to_string(),
        body: "b".to_string(),
        urgency: "NORMAL".to_string(),
        appname: "app".to_string(),
    }
}

fn note(summary: &str) -> Notification {
    Notification {
        summary: summary.to_string(),
        body: "b".to_string(),
        urgency: "NORMAL".to_string(),
        appname: "app".to_string(),
    }
}

#[test]
fn surface_starts_hidden() {
    let (reducer, actions) = activate();
    assert_eq!(
        actions,
        vec![
            hide_osd(),
            render(RenderCommand::SetValue(Element::LevelBar, 0)),
            render(RenderCommand::SetVisible(Element::MicIcon, false)),
        ]
    );
    assert_eq!(actions, Reducer::startup_actions());
    assert_eq!(reducer.next_deadline(), None);
    assert!(!reducer.is_animating());
    assert_eq!(reducer.banner_width(), 0);
}

#[test]
fn volume_events_show_the_level_and_rearm_the_timer() {
    let mut reducer = Reducer::new();
    let actions = reducer.apply(Event::VolumeChanged { level: 40, muted: false }, 0);
    assert_eq!(
        actions,
        vec![
            render(RenderCommand::SetValue(Element::LevelBar, 40)),
            render(RenderCommand::SetClass(Element::LevelBar, StyleTag::Volume)),
            show_osd(),
        ]
    );
    assert_eq!(reducer.next_deadline(), Some(2000));
    let actions = reducer.apply(Event::VolumeChanged { level: 45, muted: true }, 1000);
    assert_eq!(
        actions,
        vec![
            render(RenderCommand::SetValue(Element::LevelBar, 0)),
            render(RenderCommand::SetClass(Element::LevelBar, StyleTag::Muted)),
            show_osd(),
        ]
    );
    assert_eq!(reducer.next_deadline(), Some(3000));
}

#[test]
fn two_volume_events_hide_the_display_once_after_three_seconds() {
    let mut reducer = Reducer::new();
    reducer.apply(Event::VolumeChanged { level: 40, muted: false }, 0);
    reducer.apply(Event::VolumeChanged { level: 41, muted: false }, 1000);
    let mut hides = Vec::new();
    let mut now = 0;
    while now <= 10000 {
        let actions = reducer.on_timer(now);
        if !actions.is_empty() {
            assert_eq!(actions, vec![hide_osd()]);
            hides.push(now);
        }
        now += 250;
    }
    assert_eq!(hides, vec![3000]);
}

#[test]
fn brightness_and_microphone_events_use_the_same_display() {
    let mut reducer = Reducer::new();
    let actions = reducer.apply(Event::BrightnessChanged { level: 70 }, 10);
    assert_eq!(
        actions,
        vec![
            render(RenderCommand::SetValue(Element::LevelBar, 70)),
            render(RenderCommand::SetClass(Element::LevelBar, StyleTag::Brightness)),
            show_osd(),
        ]
    );
    let actions = reducer.apply(Event::MicMuteChanged { muted: true }, 500);
    assert_eq!(
        actions,
        vec![render(RenderCommand::SetVisible(Element::MicIcon, true)), show_osd()]
    );
    assert_eq!(reducer.next_deadline(), Some(2500));
    assert_eq!(reducer.on_timer(2499), vec![]);
    assert_eq!(reducer.on_timer(2500), vec![hide_osd()]);
    assert_eq!(reducer.next_deadline(), None);
    assert_eq!(StyleTag::Volume.name(), "vol");
    assert_eq!(StyleTag::Muted.name(), "muted");
    assert_eq!(StyleTag::Brightness.name(), "blight");
}

#[test]
fn launcher_is_rebuilt_or_shows_its_placeholder() {
    let mut reducer = Reducer::new();
    let a = LauncherEntry { command: "/bin/a".to_string(), icon: "ia".to_string() };
    let b = LauncherEntry { command: "/bin/b".to_string(), icon: "ib".to_string() };
    let actions =
        reducer.apply(Event::LauncherConfigChanged { entries: vec![a.clone(), b.clone()] }, 0);
    assert_eq!(
        actions,
        vec![
            render(RenderCommand::DetachAll(Element::Launcher)),
            render(RenderCommand::AttachChild(Element::Launcher, Content::LauncherIcon(a))),
            render(RenderCommand::AttachChild(Element::Launcher, Content::LauncherIcon(b))),
        ]
    );
    let actions = reducer.apply(Event::LauncherConfigChanged { entries: vec![] }, 0);
    assert_eq!(
        actions,
        vec![
            render(RenderCommand::DetachAll(Element::Launcher)),
            render(RenderCommand::AttachChild(Element::Launcher, Content::Placeholder)),
        ]
    );
    assert_eq!(reducer.next_deadline(), None);
}

#[test]
fn desktop_is_rebuilt_for_the_size_of_its_container() {
    let mut reducer = Reducer::new();
    let folder = GridItem {
        width: 200,
        height: 200,
        colspan: 1,
        rowspan: 1,
        col: 4,
        row: 0,
        path: "/home".to_string(),
    };
    let actions =
        reducer.apply(Event::LayoutConfigChanged { fill: true, items: vec![folder.clone()] }, 0);
    assert_eq!(
        actions,
        vec![
            render(RenderCommand::DetachAll(Element::Desktop)),
            render(RenderCommand::AttachChild(
                Element::Desktop,
                Content::Cell(GridCell::Folder(folder.clone()))
            )),
        ]
    );
    reducer.set_desktop_extent(1000, 900);
    let actions = reducer.apply(Event::LayoutConfigChanged { fill: true, items: vec![folder] }, 0);
    assert_eq!(actions.len(), 11);
    for i in 0..9u32 {
        let tile = Tile { number: i as u64 + 1, row: i / 3, col: i % 3 };
        assert_eq!(
            actions[i as usize + 1],
            render(RenderCommand::AttachChild(Element::Desktop, Content::Cell(GridCell::Tile(tile))))
        );
    }
    let actions = reducer.apply(Event::LayoutConfigChanged { fill: false, items: vec![] }, 0);
    assert_eq!(actions, vec![render(RenderCommand::DetachAll(Element::Desktop))]);
}

#[test]
fn status_icons_follow_network_and_battery() {
    let mut reducer = Reducer::new();
    let wired = NetworkStatus { kind: NetworkKind::Wired, description: "Wired".to_string() };
    let actions = reducer.apply(Event::NetworkChanged { classification: wired.clone() }, 0);
    assert_eq!(
        actions,
        vec![
            render(RenderCommand::DetachAll(Element::StatusIcons)),
            render(RenderCommand::AttachChild(Element::StatusIcons, Content::Network(wired.clone()))),
        ]
    );
    let actions =
        reducer.apply(Event::BatteryChanged { percent: 55, status: BatteryStatus::Discharging }, 0);
    let reading = BatteryReading { percent: 55, status: BatteryStatus::Discharging };
    assert_eq!(
        actions,
        vec![
            render(RenderCommand::DetachAll(Element::StatusIcons)),
            render(RenderCommand::AttachChild(Element::StatusIcons, Content::Network(wired.clone()))),
            render(RenderCommand::AttachChild(Element::StatusIcons, Content::Battery(reading))),
        ]
    );
    assert_eq!(actions, refresh_status_icons(&Some(wired.clone()), Some(reading)));
    assert_eq!(actions[1..], start_status_icon_updater(&Some(wired.clone()), Some(reading))[..]);
    assert_eq!(
        append_status_icons(&Some(wired.clone()), None),
        vec![Content::Network(wired)]
    );
    assert_eq!(append_status_icons(&None, Some(reading)), vec![Content::Battery(reading)]);
    assert_eq!(append_status_icons(&None, None), vec![]);
    assert_eq!(STATUS_PERIOD_SECS, 5);
}

#[test]
fn notification_grows_in_is_shown_and_leaves() {
    let mut reducer = Reducer::new();
    let actions = reducer.apply(arrival("one"), 100);
    assert_eq!(actions, vec![Action::Measure(note("one"))]);
    assert!(!reducer.is_animating());
    reducer.on_measured(200);
    assert!(reducer.is_animating());
    let mut cues = 0;
    let mut attached_at = None;
    for tick in 1..=400u64 {
        let actions = reducer.on_tick(100 + 2 * tick);
        if actions.contains(&Action::Cue) {
            cues += 1;
            attached_at = Some(tick);
            assert_eq!(
                actions,
                vec![
                    render(RenderCommand::SetWidth(Element::Banner, 200)),
                    render(RenderCommand::AttachChild(
                        Element::Banner,
                        Content::Notification(note("one"))
                    )),
                    Action::Cue,
                ]
            );
        } else if tick < 200 {
            assert_eq!(actions, vec![render(RenderCommand::SetWidth(Element::Banner, tick as i32))]);
        } else {
            assert_eq!(actions, vec![]);
        }
    }
    assert_eq!((cues, attached_at), (1, Some(200)));
    assert_eq!(reducer.banner_width(), 200);
    assert_eq!(reducer.next_deadline(), Some(100 + 400 + BANNER_SHOW_MS));
    assert_eq!(reducer.on_timer(3499), vec![]);
    assert_eq!(reducer.on_timer(3500), vec![render(RenderCommand::DetachAll(Element::Banner))]);
    assert!(reducer.is_animating());
    for tick in 1..=200 {
        let actions = reducer.on_tick(4000);
        assert_eq!(actions, vec![render(RenderCommand::SetWidth(Element::Banner, 200 - tick))]);
    }
    assert!(!reducer.is_animating());
    assert_eq!(reducer.on_tick(5000), vec![]);
    assert_eq!(reducer.banner_width(), 0);
}

#[test]
fn same_notification_is_rendered_once() {
    let mut reducer = Reducer::new();
    assert_eq!(reducer.apply(arrival("one"), 0), vec![Action::Measure(note("one"))]);
    for now in 1..50 {
        assert_eq!(reducer.apply(arrival("one"), now), vec![]);
    }
    assert_eq!(reducer.apply(arrival("two"), 60), vec![Action::Measure(note("two"))]);
    assert_eq!(reducer.apply(arrival("one"), 70), vec![Action::Measure(note("one"))]);
}

#[test]
fn next_notification_waits_for_the_shrink() {
    let mut reducer = Reducer::new();
    reducer.apply(arrival("one"), 0);
    reducer.on_measured(2);
    reducer.on_tick(2);
    let actions = reducer.on_tick(4);
    assert!(actions.contains(&Action::Cue));
    let actions = reducer.apply(arrival("two"), 10);
    assert_eq!(actions, vec![render(RenderCommand::DetachAll(Element::Banner))]);
    assert_eq!(reducer.on_tick(12), vec![render(RenderCommand::SetWidth(Element::Banner, 1))]);
    assert_eq!(
        reducer.on_tick(14),
        vec![render(RenderCommand::SetWidth(Element::Banner, 0)), Action::Measure(note("two"))]
    );
    reducer.on_measured(1);
    let actions = reducer.on_tick(16);
    assert_eq!(
        actions,
        vec![
            render(RenderCommand::SetWidth(Element::Banner, 1)),
            render(RenderCommand::AttachChild(Element::Banner, Content::Notification(note("two")))),
            Action::Cue,
        ]
    );
    assert_eq!(reducer.next_deadline(), Some(16 + BANNER_SHOW_MS));
    assert_eq!(reducer.on_timer(3004), vec![]);
}

#[test]
fn closed_bus_stops_the_consumer() {
    let mut reducer = Reducer::new();
    let (actions, go_on) = reducer.receive(Ok(Event::MicMuteChanged { muted: false }), 5);
    assert!(go_on);
    assert_eq!(
        actions,
        vec![render(RenderCommand::SetVisible(Element::MicIcon, false)), show_osd()]
    );
    let (actions, go_on) = reducer.receive(Err(Failure::ChannelClosed), 6);
    assert!(!go_on);
    assert_eq!(actions, vec![]);
    assert_eq!(reducer.next_deadline(), Some(2005));
}

#[test]
fn contents_are_attached_in_order() {
    let contents = vec![Content::Placeholder, Content::Battery(BatteryReading {
        percent: 1,
        status: BatteryStatus::Full,
    })];
    let attached = attach_each(Element::Launcher, &contents);
    assert_eq!(attached.len(), 2);
    assert_eq!(
        attached[0],
        render(RenderCommand::AttachChild(Element::Launcher, Content::Placeholder))
    );
    let refilled = refill_with(Element::Launcher, &contents);
    assert_eq!(refilled[0], render(RenderCommand::DetachAll(Element::Launcher)));
    assert_eq!(refilled[1..], attached[..]);
    assert_eq!(Content::Placeholder.duplicate(), Content::Placeholder);
    let shown = Banner::Shown { width: 1 };
    assert_eq!(shown.width(), 1);
}
