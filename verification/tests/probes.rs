use capsule::audio::{
    is_sink_change, is_source_change, parse_mute, parse_volume, read_sink, read_source,
    VolumeReading,
};
use capsule::failure::Failure;
use capsule::backlight::{brightness_percent, parse_brightness, select_backlight, BacklightEntry};
use capsule::network::{classify_network, get_network_info, NetworkKind, NetworkStatus};
use capsule::power::{
    battery_candidates, get_battery_info, is_charging, read_sample, BatteryIcon, BatteryReading,
    BatterySample, BatteryStatus,
};

fn sample(capacity: &str, status: &str) -> Option<BatterySample> {
    Some(BatterySample { capacity: capacity.to_string(), status: status.to_string() })
}

#[test]
fn battery_candidates_are_tried_in_a_fixed_order() {
    assert_eq!(battery_candidates(), vec!["BAT1", "BAT0", "BAT2"]);
    assert_eq!(battery_candidates(), battery_candidates());
}

#[test]
fn battery_second_candidate_alone_is_read() {
    let samples = vec![None, sample("55\n", "Discharging\n"), None];
    let reading = get_battery_info(&samples).unwrap();
    assert_eq!(reading, BatteryReading { percent: 55, status: BatteryStatus::Discharging });
    assert_eq!((reading.percent, reading.status.label()), (55, "Discharging"));
    for _ in 0..10 {
        assert_eq!(get_battery_info(&samples), Ok(reading));
    }
}

#[test]
fn battery_first_readable_candidate_wins() {
    let samples = vec![sample("80", "Full"), sample("55", "Discharging"), sample("1", "Charging")];
    assert_eq!(
        get_battery_info(&samples),
        Ok(BatteryReading { percent: 80, status: BatteryStatus::Full })
    );
    let samples = vec![sample("eighty", "Full"), sample("101", "Full"), sample(" 100 ", " Charging ")];
    assert_eq!(
        get_battery_info(&samples),
        Ok(BatteryReading { percent: 100, status: BatteryStatus::Charging })
    );
}

#[test]
fn battery_is_unavailable_without_a_readable_candidate() {
    assert_eq!(get_battery_info(&vec![None, None, None]), Err(Failure::SourceUnavailable));
    assert_eq!(get_battery_info(&vec![]), Err(Failure::SourceUnavailable));
    assert_eq!(
        get_battery_info(&vec![sample("", "Full"), sample("-1", "Full")]),
        Err(Failure::SourceUnavailable)
    );
    assert_eq!(Failure::SourceUnavailable.describe(), "the source is not available");
    assert_eq!(Failure::ParseError.describe(), "the record is malformed");
    assert_eq!(Failure::ChannelClosed.describe(), "the event bus is closed");
}

#[test]
fn battery_status_goes_by_the_word() {
    let read = |status: &str| {
        read_sample(&BatterySample { capacity: "5".to_string(), status: status.to_string() })
            .unwrap()
            .status
    };
    assert_eq!(read("Charging"), BatteryStatus::Charging);
    assert_eq!(read("Discharging"), BatteryStatus::Discharging);
    assert_eq!(read("Full"), BatteryStatus::Full);
    assert_eq!(read("Unknown"), BatteryStatus::Unknown);
    assert_eq!(read("Not charging"), BatteryStatus::Unknown);
    assert_eq!(read("charging"), BatteryStatus::Unknown);
    assert_eq!(BatteryStatus::Charging.label(), "Charging");
    assert_eq!(BatteryStatus::Discharging.label(), "Discharging");
    assert_eq!(BatteryStatus::Full.label(), "Full");
    assert_eq!(BatteryStatus::Unknown.label(), "Unknown");
}

#[test]
fn battery_icon_goes_by_status_and_charge() {
    let icon = |percent: u8, status: BatteryStatus| BatteryReading { percent, status }.icon();
    assert_eq!(icon(10, BatteryStatus::Charging), BatteryIcon::Charging);
    assert_eq!(icon(100, BatteryStatus::Full), BatteryIcon::Full);
    assert_eq!(icon(81, BatteryStatus::Discharging), BatteryIcon::Full);
    assert_eq!(icon(80, BatteryStatus::Discharging), BatteryIcon::Good);
    assert_eq!(icon(61, BatteryStatus::Discharging), BatteryIcon::Good);
    assert_eq!(icon(60, BatteryStatus::Discharging), BatteryIcon::Medium);
    assert_eq!(icon(41, BatteryStatus::Unknown), BatteryIcon::Medium);
    assert_eq!(icon(40, BatteryStatus::Unknown), BatteryIcon::Low);
    assert_eq!(icon(21, BatteryStatus::Unknown), BatteryIcon::Low);
    assert_eq!(icon(20, BatteryStatus::Unknown), BatteryIcon::Caution);
    assert_eq!(icon(0, BatteryStatus::Discharging), BatteryIcon::Caution);
    assert_eq!(BatteryIcon::Charging.name(), "sensors-voltage-symbolic");
    assert_eq!(BatteryIcon::Full.name(), "battery-full-symbolic");
    assert_eq!(BatteryIcon::Good.name(), "battery-good-symbolic");
    assert_eq!(BatteryIcon::Medium.name(), "battery-medium-symbolic");
    assert_eq!(BatteryIcon::Low.name(), "battery-low-symbolic");
    assert_eq!(BatteryIcon::Caution.name(), "battery-caution-symbolic");
}

#[test]
fn battery_tooltip_names_charge_and_status() {
    let reading = BatteryReading { percent: 55, status: BatteryStatus::Discharging };
    assert_eq!(reading.tooltip(), "Battery: 55% (Discharging)");
    let reading = BatteryReading { percent: 100, status: BatteryStatus::Full };
    assert_eq!(reading.tooltip(), "Battery: 100% (Full)");
    let reading = BatteryReading { percent: 0, status: BatteryStatus::Unknown };
    assert_eq!(reading.tooltip(), "Battery: 0% (Unknown)");
}

#[test]
fn charging_is_seen_on_any_device() {
    let status = |s: &str| Some(s.to_string());
    assert!(is_charging(&vec![None, status("Discharging\n"), status("Charging\n")]));
    assert!(!is_charging(&vec![None, status("Discharging\n"), status("Full")]));
    assert!(!is_charging(&vec![status("Not Charging")]));
    assert!(!is_charging(&vec![]));
}

#[test]
fn network_is_classified_by_the_probe_output() {
    assert_eq!(classify_network("Wired"), NetworkKind::Wired);
    assert_eq!(classify_network("Network Enabled - home"), NetworkKind::Wireless);
    assert_eq!(classify_network("No Connection"), NetworkKind::Offline);
    assert_eq!(classify_network("Network Disabled"), NetworkKind::Disabled);
    assert_eq!(classify_network(""), NetworkKind::Disabled);
    assert_eq!(classify_network("Network Enabled - Wired"), NetworkKind::Wired);
    assert_eq!(classify_network("Network Enabled - No Connection"), NetworkKind::Wireless);
    assert_eq!(
        get_network_info("Network Enabled - home"),
        NetworkStatus { kind: NetworkKind::Wireless, description: "Network Enabled - home".to_string() }
    );
    assert_eq!(NetworkKind::Wired.icon_name(), "network-wired-symbolic");
    assert_eq!(NetworkKind::Wireless.icon_name(), "network-wireless-signal-excellent-symbolic");
    assert_eq!(NetworkKind::Offline.icon_name(), "network-wireless-offline-symbolic");
    assert_eq!(NetworkKind::Disabled.icon_name(), "network-offline-symbolic");
}

#[test]
fn volume_is_the_second_field_of_the_answer() {
    let answer = "Volume: front-left: 26214 /  40% / -23.88 dB,   front-right: 26214 /  40% / -23.88 dB\n        balance 0.00\n";
    assert_eq!(parse_volume(answer), 40);
    assert_eq!(parse_volume("a / 7%% / b"), 7);
    assert_eq!(parse_volume("a/100%"), 100);
    assert_eq!(parse_volume("a/101%"), 100);
    assert_eq!(parse_volume("a/255%"), 100);
    assert_eq!(parse_volume("a/256%"), 0);
    assert_eq!(parse_volume("a/ %"), 0);
    assert_eq!(parse_volume("a/4 0%"), 0);
    assert_eq!(parse_volume("40%"), 0);
    assert_eq!(parse_volume(""), 0);
}

#[test]
fn mute_is_told_by_yes() {
    assert!(parse_mute("Mute: yes\n"));
    assert!(!parse_mute("Mute: no\n"));
    assert!(!parse_mute(""));
    assert_eq!(read_sink(Some("x / 30% / y"), Some("Mute: yes")), VolumeReading { level: 30, muted: true });
    assert_eq!(read_sink(None, None), VolumeReading { level: 0, muted: false });
    assert_eq!(read_sink(None, Some("yes")), VolumeReading { level: 0, muted: true });
    assert!(read_source(Some("Mute: yes")));
    assert!(!read_source(Some("Mute: no")));
    assert!(!read_source(None));
}

#[test]
fn change_notices_are_told_apart() {
    assert!(is_sink_change("Event 'change' on sink #54"));
    assert!(is_sink_change("Event 'change' on sink-input #12"));
    assert!(!is_sink_change("Event 'new' on sink #54"));
    assert!(!is_sink_change("Event 'change' on source #54"));
    assert!(is_source_change("Event 'change' on source #3"));
    assert!(!is_source_change("Event 'change' on sink #3"));
    assert!(!is_source_change(""));
}

#[test]
fn brightness_is_a_rounded_percentage() {
    assert_eq!(brightness_percent(0, 255), Some(0));
    assert_eq!(brightness_percent(255, 255), Some(100));
    assert_eq!(brightness_percent(128, 255), Some(50));
    assert_eq!(brightness_percent(1, 200), Some(1));
    assert_eq!(brightness_percent(1, 201), Some(0));
    assert_eq!(brightness_percent(3, 8), Some(38));
    assert_eq!(brightness_percent(1, 8), Some(13));
    assert_eq!(brightness_percent(300, 255), Some(100));
    assert_eq!(brightness_percent(u32::MAX - 1, u32::MAX), Some(100));
    assert_eq!(brightness_percent(5, 0), None);
    assert_eq!(brightness_percent(0, 0), None);
    for max in [1u32, 7, 100, 255, 937, 96000] {
        for current in 0..=max.min(2000) {
            let exact = (current as f64 / max as f64 * 100.0).round() as u8;
            assert_eq!(brightness_percent(current, max), Some(exact));
        }
    }
}

#[test]
fn brightness_value_is_read_from_the_file() {
    assert_eq!(parse_brightness("120\n"), 120);
    assert_eq!(parse_brightness(""), 0);
    assert_eq!(parse_brightness("bright"), 0);
    assert_eq!(parse_brightness("4294967296"), 0);
}

#[test]
fn backlight_is_the_first_entry_with_both_files() {
    let entry = |b: bool, m: bool| BacklightEntry { has_brightness: b, has_max_brightness: m };
    assert_eq!(select_backlight(&vec![entry(true, false), entry(true, true), entry(true, true)]), Some(1));
    assert_eq!(select_backlight(&vec![entry(false, true), entry(false, false)]), None);
    assert_eq!(select_backlight(&vec![]), None);
}
