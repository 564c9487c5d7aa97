//! The sources, one by one: what a probe's raw answer becomes on its way to
//! the event bus. Each function here takes what was read outside, hands the
//! reading to the source's monitor, and returns the event to send, if there
//! is one.

use crate::audio::{mute_of, read_sink, read_source, sink_reading, VolumeReading};
use crate::backlight::{brightness_percent, parse_brightness, percent_of, raw_value};
use crate::event::Event;
use crate::failure::Failure;
use crate::launcher::{entry_views, launcher_entries, parse_launcher, LauncherEntry};
use crate::layout::{asks_fill, item_views, items_of, parse_layout};
use crate::monitor::{verdict_on, SourceMonitor, Verdict};
use crate::network::{get_network_info, kind_of, NetworkStatus};
use crate::notification::{log_records, read_notifications, Notification, NotificationView};
use crate::power::{first_reading, get_battery_info, sample_views, BatteryReading, BatterySample};
use crate::text::lines;
use vstd::prelude::*;

verus! {

/// The launcher configuration, below the directory of the configuration.
pub const LAUNCHER_FILE: &'static str = "alt/ql.dat";

/// The layout configuration, below the directory of the configuration.
pub const LAYOUT_FILE: &'static str = "desktop/widgets.dat";

/// The notification log.
pub const NOTIFICATION_LOG: &'static str = "/tmp/notiv.dat";

/// The interval at which the configuration files are looked at, in seconds.
pub const CONFIG_PERIOD_SECS: u32 = 1;

/// The interval at which the notification log is looked at, in seconds.
pub const NOTIFICATION_PERIOD_SECS: u32 = 3;

/// The view of an optional string.
pub open spec fn text_of(s: Option<&str>) -> Option<Seq<char>> {
    match s {
        Some(t) => Some(t@),
        None => None,
    }
}

/// The default sink was probed after a change notice: `volume` and `mute`
/// are the audio server's two answers, `None` where one could not be had.
/// The reading is handed to the monitor, and a volume event is returned
/// where the monitor says to send it on.
pub fn on_sink_probe(
    monitor: &mut SourceMonitor<VolumeReading>,
    volume: Option<&str>,
    mute: Option<&str>,
) -> (event: Option<Event>)
    ensures
        ({
            let reading = sink_reading(text_of(volume), text_of(mute));
            let verdict = verdict_on(
                old(monitor).discipline,
                old(monitor).alive,
                old(monitor).detector.last(),
                Some(reading),
            );
            &&& event == (if verdict == Verdict::Emit {
                Some(Event::VolumeChanged { level: reading.level, muted: reading.muted })
            } else {
                None
            })
            &&& final(monitor).discipline == old(monitor).discipline
            &&& final(monitor).alive == old(monitor).alive
            &&& final(monitor).detector.last() == (if old(monitor).alive {
                Some(reading)
            } else {
                old(monitor).detector.last()
            })
        }),
{
    let reading = read_sink(volume, mute);
    match monitor.on_result(Ok(reading)) {
        Verdict::Emit => Some(Event::VolumeChanged { level: reading.level, muted: reading.muted }),
        _ => None,
    }
}

/// The default source was probed after a change notice: `mute` is the audio
/// server's answer, `None` where it could not be had. A microphone event is
/// returned where the monitor says to send the reading on.
pub fn on_source_probe(
    monitor: &mut SourceMonitor<bool>,
    mute: Option<&str>,
) -> (event: Option<Event>)
    ensures
        ({
            let muted = match mute {
                Some(m) => mute_of(m@),
                None => false,
            };
            let verdict = verdict_on(
                old(monitor).discipline,
                old(monitor).alive,
                old(monitor).detector.last(),
                Some(muted),
            );
            &&& event == (if verdict == Verdict::Emit {
                Some(Event::MicMuteChanged { muted })
            } else {
                None
            })
            &&& final(monitor).discipline == old(monitor).discipline
            &&& final(monitor).alive == old(monitor).alive
            &&& final(monitor).detector.last() == (if old(monitor).alive {
                Some(muted)
            } else {
                old(monitor).detector.last()
            })
        }),
{
    let muted = read_source(mute);
    match monitor.on_result(Ok(muted)) {
        Verdict::Emit => Some(Event::MicMuteChanged { muted }),
        _ => None,
    }
}

/// The brightness that a written brightness file gives: the percentage of
/// its value, which is 0 where the file could not be read, in `max`.
pub open spec fn brightness_reading(current: Option<Seq<char>>, max: u32) -> Option<u8> {
    percent_of(
        match current {
            Some(text) => raw_value(text),
            None => 0,
        },
        max,
    )
}

/// The brightness file was written: `current` is what it holds now, `None`
/// where it could not be read, and `max` the largest brightness of the
/// device. A brightness event is returned where the monitor says to send
/// the reading on. With a largest brightness of zero the source counts as
/// unavailable.
pub fn on_brightness_write(
    monitor: &mut SourceMonitor<u8>,
    current: Option<&str>,
    max: u32,
) -> (event: Option<Event>)
    ensures
        ({
            let reading = brightness_reading(text_of(current), max);
            let verdict = verdict_on(
                old(monitor).discipline,
                old(monitor).alive,
                old(monitor).detector.last(),
                reading,
            );
            &&& event == (if verdict == Verdict::Emit {
                Some(Event::BrightnessChanged { level: reading->0 })
            } else {
                None
            })
            &&& final(monitor).discipline == old(monitor).discipline
            &&& final(monitor).alive == (old(monitor).alive && reading is Some)
            &&& final(monitor).detector.last() == (if old(monitor).alive && reading is Some {
                reading
            } else {
                old(monitor).detector.last()
            })
        }),
{
    let value = match current {
        Some(text) => parse_brightness(text),
        None => 0,
    };
    match brightness_percent(value, max) {
        Some(level) => match monitor.on_result(Ok(level)) {
            Verdict::Emit => Some(Event::BrightnessChanged { level }),
            _ => None,
        },
        None => {
            let _ = monitor.on_result(Err(Failure::SourceUnavailable));
            None
        },
    }
}

/// The battery was probed: `samples` holds what the files of each candidate
/// device hold, as [`get_battery_info`] takes them. A battery event is
/// returned where the monitor says to send the reading on. With no readable
/// device the source counts as unavailable.
pub fn on_battery_poll(
    monitor: &mut SourceMonitor<BatteryReading>,
    samples: &Vec<Option<BatterySample>>,
) -> (event: Option<Event>)
    ensures
        ({
            let reading = first_reading(sample_views(samples@));
            let verdict = verdict_on(
                old(monitor).discipline,
                old(monitor).alive,
                old(monitor).detector.last(),
                reading,
            );
            &&& event == (if verdict == Verdict::Emit {
                Some(
                    Event::BatteryChanged {
                        percent: reading->0.percent,
                        status: reading->0.status,
                    },
                )
            } else {
                None
            })
            &&& final(monitor).discipline == old(monitor).discipline
            &&& final(monitor).alive == (old(monitor).alive && reading is Some)
            &&& final(monitor).detector.last() == (if old(monitor).alive && reading is Some {
                reading
            } else {
                old(monitor).detector.last()
            })
        }),
{
    let reading = get_battery_info(samples);
    match monitor.on_result(reading) {
        Verdict::Emit => match reading {
            Ok(r) => Some(Event::BatteryChanged { percent: r.percent, status: r.status }),
            Err(_) => None,
        },
        _ => None,
    }
}

/// The network was probed: `output` is what the connectivity check printed,
/// `None` where it could not be run, which makes the source unavailable. A
/// network event is returned where the monitor says to send the reading on.
pub fn on_network_poll(
    monitor: &mut SourceMonitor<NetworkStatus>,
    output: Option<&str>,
) -> (event: Option<Event>)
    ensures
        ({
            let reading = match output {
                Some(text) => Some((kind_of(text@), text@)),
                None => None,
            };
            let verdict = verdict_on(
                old(monitor).discipline,
                old(monitor).alive,
                old(monitor).detector.last(),
                reading,
            );
            &&& event is Some <==> verdict == Verdict::Emit
            &&& event matches Some(e) ==> e matches Event::NetworkChanged { classification }
                && Some(classification@) == reading
            &&& final(monitor).discipline == old(monitor).discipline
            &&& final(monitor).alive == (old(monitor).alive && reading is Some)
            &&& final(monitor).detector.last() == (if old(monitor).alive && reading is Some {
                reading
            } else {
                old(monitor).detector.last()
            })
        }),
{
    match output {
        Some(text) => {
            let status = get_network_info(text);
            match monitor.on_result(Ok(status.duplicate())) {
                Verdict::Emit => Some(Event::NetworkChanged { classification: status }),
                _ => None,
            }
        },
        None => {
            let _ = monitor.on_result(Err(Failure::SourceUnavailable));
            None
        },
    }
}

/// The newest record of a log: the last one.
pub open spec fn newest(records: Seq<NotificationView>) -> Option<NotificationView> {
    if records.len() == 0 {
        None
    } else {
        Some(records.last())
    }
}

/// The notification that an event tells of, if it tells of one.
pub open spec fn arrival_of(event: Event) -> Option<NotificationView> {
    match event {
        Event::NotificationArrived { summary, body, urgency, appname } => Some(
            NotificationView {
                summary: summary@,
                body: body@,
                urgency: urgency@,
                appname: appname@,
            },
        ),
        _ => None,
    }
}

/// The notification log was looked at: `log` is its text, `None` where it
/// could not be read, which makes the source unavailable. The newest record
/// is handed to the monitor, and an arrival is returned where the monitor
/// says to send it on. A log without records changes nothing.
pub fn check(monitor: &mut SourceMonitor<Notification>, log: Option<&str>) -> (event: Option<Event>)
    ensures
        ({
            let looked = match log {
                Some(text) => newest(log_records(text@)),
                None => None,
            };
            let skipped = log is Some && looked is None;
            let verdict = verdict_on(
                old(monitor).discipline,
                old(monitor).alive,
                old(monitor).detector.last(),
                looked,
            );
            &&& event is Some <==> !skipped && verdict == Verdict::Emit
            &&& event matches Some(e) ==> arrival_of(e) == looked
            &&& final(monitor).discipline == old(monitor).discipline
            &&& final(monitor).alive == (old(monitor).alive && (skipped || looked is Some))
            &&& final(monitor).detector.last() == (if old(monitor).alive && looked is Some {
                looked
            } else {
                old(monitor).detector.last()
            })
        }),
{
    match log {
        Some(text) => {
            let mut records = read_notifications(text);
            let ghost views = crate::notification::notification_views(records@);
            match records.pop() {
                Some(n) => {
                    assert(views.last() == n@);
                    match monitor.on_result(Ok(n.duplicate())) {
                        Verdict::Emit => Some(
                            Event::NotificationArrived {
                                summary: n.summary,
                                body: n.body,
                                urgency: n.urgency,
                                appname: n.appname,
                            },
                        ),
                        _ => None,
                    }
                },
                None => None,
            }
        },
        None => {
            let _ = monitor.on_result(Err(Failure::SourceUnavailable));
            None
        },
    }
}

/// The first look at the notification log: a polling monitor is made, and
/// the log is looked at with it as [`check`] does.
pub fn notiv_maker(log: Option<&str>) -> (r: (SourceMonitor<Notification>, Option<Event>))
    ensures
        ({
            let looked = match log {
                Some(text) => newest(log_records(text@)),
                None => None,
            };
            &&& r.1 is Some <==> looked is Some
            &&& r.1 matches Some(e) ==> arrival_of(e) == looked
            &&& r.0.discipline == crate::monitor::Discipline::Polling
            &&& r.0.alive == log is Some
            &&& r.0.detector.last() == looked
        }),
{
    let mut monitor: SourceMonitor<Notification> = SourceMonitor::new(
        crate::monitor::Discipline::Polling,
    );
    let event = check(&mut monitor, log);
    (monitor, event)
}

/// The launcher configuration was looked at: `modified` is the time of its
/// last change, `None` where the file is absent, and `content` is its text,
/// `None` where it could not be read. The time is the fingerprint that the
/// monitor takes. Where the monitor says to send it on, the event holds the
/// entries of the text, none for a text that could not be read. Where the
/// file has just become unavailable, the event holds no entries, so that
/// the launcher falls back to its placeholder.
pub fn ql_creator(
    monitor: &mut SourceMonitor<u64>,
    modified: Option<u64>,
    content: Option<&str>,
) -> (event: Option<Event>)
    ensures
        ({
            let verdict = verdict_on(
                old(monitor).discipline,
                old(monitor).alive,
                old(monitor).detector.last(),
                modified,
            );
            let wanted = if verdict == Verdict::Emit && content is Some {
                launcher_entries(content->0@)
            } else {
                Seq::empty()
            };
            &&& event is Some <==> verdict == Verdict::Emit || verdict == Verdict::Lost
            &&& event matches Some(e) ==> e matches Event::LauncherConfigChanged { entries }
                && entry_views(entries@) == wanted
            &&& final(monitor).discipline == old(monitor).discipline
            &&& final(monitor).alive == (old(monitor).alive && modified is Some)
            &&& final(monitor).detector.last() == (if old(monitor).alive && modified is Some {
                modified
            } else {
                old(monitor).detector.last()
            })
        }),
{
    let stamp = match modified {
        Some(m) => Ok(m),
        None => Err(Failure::SourceUnavailable),
    };
    match monitor.on_result(stamp) {
        Verdict::Emit => {
            let entries = match content {
                Some(text) => parse_launcher(text),
                None => {
                    let none: Vec<LauncherEntry> = Vec::new();
                    assert(entry_views(none@) == Seq::<(Seq<char>, Seq<char>)>::empty());
                    none
                },
            };
            Some(Event::LauncherConfigChanged { entries })
        },
        Verdict::Lost => {
            let none: Vec<LauncherEntry> = Vec::new();
            assert(entry_views(none@) == Seq::<(Seq<char>, Seq<char>)>::empty());
            Some(Event::LauncherConfigChanged { entries: none })
        },
        _ => None,
    }
}

/// The layout configuration was looked at: `modified` is the time of its
/// last change and `content` its text. The time is the fingerprint that the
/// monitor takes; where the monitor says to send it on, the event holds the
/// parsed layout.
pub fn on_layout_poll(
    monitor: &mut SourceMonitor<u64>,
    modified: u64,
    content: &str,
) -> (event: Option<Event>)
    ensures
        ({
            let verdict = verdict_on(
                old(monitor).discipline,
                old(monitor).alive,
                old(monitor).detector.last(),
                Some(modified),
            );
            &&& event is Some <==> verdict == Verdict::Emit
            &&& event matches Some(e) ==> e matches Event::LayoutConfigChanged { fill, items }
                && fill == asks_fill(lines(content@)) && item_views(items@) == items_of(
                lines(content@),
            )
            &&& final(monitor).discipline == old(monitor).discipline
            &&& final(monitor).alive == old(monitor).alive
            &&& final(monitor).detector.last() == (if old(monitor).alive {
                Some(modified)
            } else {
                old(monitor).detector.last()
            })
        }),
{
    match monitor.on_result(Ok(modified)) {
        Verdict::Emit => {
            let layout = parse_layout(content);
            Some(Event::LayoutConfigChanged { fill: layout.fill, items: layout.items })
        },
        _ => None,
    }
}

} // verus!
