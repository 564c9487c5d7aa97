use capsule::animation::{Animation, Tick};
use capsule::banner::{Banner, BANNER_SHOW_MS};
use capsule::debounce::{DebounceTimer, OSD_WINDOW_MS};
use capsule::detector::{ChangeDetector, Fingerprint};
use capsule::failure::Failure;
use capsule::monitor::{Discipline, SourceMonitor, Verdict};
use capsule::notification::Notification;
use capsule::render::{Action, Content, Element, RenderCommand};

fn note(summary: &str) -> Notification {
    Notification {
        summary: summary.to_string(),
        body: "body".to_string(),
        urgency: "NORMAL".to_string(),
        appname: "app".to_string(),
    }
}

fn set_width(w: i32) -> Action {
    Action::Render(RenderCommand::SetWidth(Element::Banner, w))
}

fn attach(n: &Notification) -> Action {
    Action::Render(RenderCommand::AttachChild(Element::Banner, Content::Notification(n.clone())))
}

fn detach() -> Action {
    Action::Render(RenderCommand::DetachAll(Element::Banner))
}

#[test]
fn repeated_reading_is_reported_once() {
    for n in [1usize, 2, 3, 10, 1000] {
        let mut detector: ChangeDetector<u64> = ChangeDetector::new();
        let mut reported = Vec::new();
        for _ in 0..n {
            reported.push(detector.observe(42));
        }
        assert!(reported[0]);
        assert_eq!(reported.iter().filter(|r| **r).count(), 1);
    }
}

#[test]
fn detector_reports_every_change() {
    let mut detector: ChangeDetector<u64> = ChangeDetector::new();
    assert!(detector.would_report(&0));
    assert!(detector.observe(0));
    assert!(!detector.would_report(&0));
    assert!(!detector.observe(0));
    assert!(detector.observe(7));
    assert!(detector.observe(0));
    assert!(!detector.observe(0));
    detector.reset();
    assert!(detector.observe(0));
}

#[test]
fn fingerprints_compare_by_value() {
    assert!(5u64.same(&5));
    assert!(!5u64.same(&6));
    assert!(true.same(&true));
    assert!(!true.same(&false));
    assert!(7u8.same(&7));
    assert!("a".to_string().same(&"a".to_string()));
    assert!(!"a".to_string().same(&"b".to_string()));
    assert!(note("x").same(&note("x")));
    assert!(!note("x").same(&note("y")));
    let mut other = note("x");
    other.appname = "else".to_string();
    assert!(!note("x").same(&other));
}

#[test]
fn two_events_give_one_hide_after_the_second_window() {
    assert_eq!(OSD_WINDOW_MS, 2000);
    let mut timer = DebounceTimer::new(OSD_WINDOW_MS);
    assert!(!timer.arm(0));
    assert!(timer.arm(1000));
    let mut hides = Vec::new();
    let mut now = 0;
    while now <= 6000 {
        if timer.poll(now) {
            hides.push(now);
        }
        now += 500;
    }
    assert_eq!(hides, vec![3000]);
}

#[test]
fn timer_holds_one_deadline() {
    let mut timer = DebounceTimer::new(2000);
    assert!(!timer.is_armed());
    assert!(!timer.poll(5000));
    timer.arm(100);
    assert_eq!(timer.deadline, Some(2100));
    assert!(!timer.poll(2099));
    assert!(timer.is_armed());
    assert!(timer.poll(2100));
    assert!(!timer.is_armed());
    assert!(!timer.poll(2101));
    timer.arm(3000);
    assert!(timer.cancel());
    assert!(!timer.cancel());
    assert!(!timer.poll(u64::MAX));
    timer.arm(u64::MAX - 5);
    assert_eq!(timer.deadline, Some(u64::MAX));
}

#[test]
fn animation_completes_after_two_hundred_ticks() {
    let mut animation = Animation::new(0, 200, 1).unwrap();
    let mut completions = Vec::new();
    for tick in 1..=500u32 {
        match animation.tick() {
            Tick::Moved(w) => {
                assert_eq!(w, tick as i32);
                assert!(tick < 200);
            }
            Tick::Completed(w) => {
                assert_eq!(w, 200);
                completions.push(tick);
            }
            Tick::Idle => assert!(tick > 200),
        }
    }
    assert_eq!(completions, vec![200]);
    assert_eq!(animation.current, 200);
    assert!(!animation.is_running());
}

#[test]
fn animation_moves_toward_its_target_without_passing_it() {
    let mut animation = Animation::new(10, 0, 4).unwrap();
    assert_eq!(animation.tick(), Tick::Moved(6));
    assert_eq!(animation.tick(), Tick::Moved(2));
    assert_eq!(animation.tick(), Tick::Completed(0));
    assert_eq!(animation.tick(), Tick::Idle);
    let mut still = Animation::unit(5, 5);
    assert!(still.is_running());
    assert_eq!(still.tick(), Tick::Completed(5));
    assert_eq!(still.tick(), Tick::Idle);
    assert_eq!(Animation::new(0, 1, 0), None);
    let mut wide = Animation::new(i32::MIN, i32::MAX, u32::MAX - 1).unwrap();
    assert_eq!(wide.tick(), Tick::Moved(i32::MAX - 1));
    assert_eq!(wide.tick(), Tick::Completed(i32::MAX));
    let mut zero_step = Animation { current: 0, target: 2, step: 0, finished: false };
    assert_eq!(zero_step.tick(), Tick::Moved(1));
    assert_eq!(zero_step.tick(), Tick::Completed(2));
}

#[test]
fn polling_monitor_sends_changes_only() {
    let mut monitor: SourceMonitor<u64> = SourceMonitor::new(Discipline::Polling);
    assert!(monitor.wants_probe());
    assert_eq!(monitor.on_result(Ok(1)), Verdict::Emit);
    assert_eq!(monitor.on_result(Ok(1)), Verdict::Quiet);
    assert_eq!(monitor.on_result(Ok(2)), Verdict::Emit);
    assert_eq!(monitor.on_result(Err(Failure::SourceUnavailable)), Verdict::Lost);
    assert!(!monitor.wants_probe());
    assert_eq!(monitor.on_result(Ok(3)), Verdict::Ended);
    assert_eq!(monitor.on_result(Err(Failure::SourceUnavailable)), Verdict::Ended);
}

#[test]
fn watch_monitor_sends_every_reading() {
    let mut monitor: SourceMonitor<u8> = SourceMonitor::new(Discipline::Watch);
    assert_eq!(monitor.on_result(Ok(50)), Verdict::Emit);
    assert_eq!(monitor.on_result(Ok(50)), Verdict::Emit);
    assert!(monitor.on_closed());
    assert!(!monitor.on_closed());
    assert_eq!(monitor.on_result(Ok(50)), Verdict::Ended);
}

#[test]
fn subscription_monitor_suppresses_the_same_reading() {
    let mut monitor: SourceMonitor<bool> = SourceMonitor::new(Discipline::Subscription);
    assert_eq!(monitor.on_result(Ok(false)), Verdict::Emit);
    assert_eq!(monitor.on_result(Ok(false)), Verdict::Quiet);
    assert_eq!(monitor.on_result(Ok(true)), Verdict::Emit);
}

#[test]
fn banner_grows_shows_and_shrinks() {
    assert_eq!(BANNER_SHOW_MS, 3000);
    let n = note("first");
    let (banner, actions) = Banner::Empty.arrive(n.clone());
    assert_eq!(actions, vec![Action::Measure(n.clone())]);
    assert_eq!(banner, Banner::Measuring { next: n.clone() });
    assert!(!banner.is_animating());
    let banner = banner.on_measured(3);
    assert!(banner.is_animating());
    assert_eq!(banner.width(), 0);
    let (banner, actions, attached) = banner.tick();
    assert_eq!((actions, attached), (vec![set_width(1)], false));
    let (banner, actions, attached) = banner.tick();
    assert_eq!((actions, attached), (vec![set_width(2)], false));
    let (banner, actions, attached) = banner.tick();
    assert_eq!((actions, attached), (vec![set_width(3), attach(&n), Action::Cue], true));
    assert_eq!(banner, Banner::Shown { width: 3 });
    let (banner, actions, attached) = banner.tick();
    assert_eq!((actions, attached), (vec![], false));
    let (banner, actions) = banner.expire();
    assert_eq!(actions, vec![detach()]);
    let (banner, actions, _) = banner.tick();
    assert_eq!(actions, vec![set_width(2)]);
    let (banner, actions, _) = banner.tick();
    assert_eq!(actions, vec![set_width(1)]);
    let (banner, actions, _) = banner.tick();
    assert_eq!(actions, vec![set_width(0)]);
    assert_eq!(banner, Banner::Empty);
    assert_eq!(banner.width(), 0);
}

#[test]
fn banner_restarts_from_its_live_width() {
    let first = note("first");
    let second = note("second");
    let third = note("third");
    let (banner, _) = Banner::Empty.arrive(first.clone());
    let banner = banner.on_measured(10);
    let (banner, _, _) = banner.tick();
    let (banner, _, _) = banner.tick();
    assert_eq!(banner.width(), 2);
    let (banner, actions) = banner.arrive(second.clone());
    assert_eq!(actions, vec![]);
    assert_eq!(
        banner,
        Banner::Shrinking { animation: Animation::unit(2, 0), next: Some(second.clone()) }
    );
    let (banner, actions) = banner.arrive(third.clone());
    assert_eq!(actions, vec![]);
    let (banner, actions, _) = banner.tick();
    assert_eq!(actions, vec![set_width(1)]);
    let (banner, actions, attached) = banner.tick();
    assert_eq!(actions, vec![set_width(0), Action::Measure(third.clone())]);
    assert!(!attached);
    assert_eq!(banner, Banner::Measuring { next: third.clone() });
    let banner = banner.on_measured(-4);
    let (banner, actions, attached) = banner.tick();
    assert_eq!((actions, attached), (vec![set_width(0), attach(&third), Action::Cue], true));
    let (banner, actions) = banner.arrive(first.clone());
    assert_eq!(actions, vec![detach()]);
    let (banner, actions, _) = banner.tick();
    assert_eq!(actions, vec![set_width(0), Action::Measure(first.clone())]);
    assert_eq!(banner, Banner::Measuring { next: first });
}

#[test]
fn banner_ignores_what_does_not_concern_its_state() {
    assert_eq!(Banner::Empty.on_measured(5), Banner::Empty);
    assert_eq!(Banner::Empty.expire(), (Banner::Empty, vec![]));
    assert_eq!(Banner::Empty.tick(), (Banner::Empty, vec![], false));
    let shown = Banner::Shown { width: 4 };
    assert_eq!(shown.clone().on_measured(9), shown);
    let n = note("n");
    let (measuring, _) = Banner::Empty.arrive(n.clone());
    let (again, actions) = measuring.arrive(note("m"));
    assert_eq!(actions, vec![Action::Measure(note("m"))]);
    assert_eq!(again.clone().expire(), (again, vec![]));
    let done = Animation { current: 7, target: 7, step: 1, finished: true };
    let stuck = Banner::Growing { animation: done, next: n.clone() };
    assert_eq!(stuck.tick(), (Banner::Shown { width: 7 }, vec![attach(&n), Action::Cue], true));
    let stuck = Banner::Shrinking { animation: done, next: None };
    assert_eq!(stuck.tick(), (Banner::Empty, vec![], false));
}
