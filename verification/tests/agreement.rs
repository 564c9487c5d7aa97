use capsule::audio::{parse_mute, parse_volume};
use capsule::launcher::parse_launcher;
use capsule::layout::parse_layout;
use capsule::notification::{read_notifications, Notification};

/// A small generator of texts: pieces drawn from a list, in an order that
/// is the same on every run.
struct Texts {
    state: u64,
}

impl Texts {
    fn next(&mut self) -> u64 {
        self.state =
            self.state.wrapping_mul(6364136223846793005).wrapping_add(1442695040888963407);
        self.state >> 33
    }

    fn text(&mut self, pieces: &[&str], longest: u64) -> String {
        let n = self.next() % longest;
        let mut text = String::new();
        for _ in 0..n {
            text.push_str(pieces[(self.next() % pieces.len() as u64) as usize]);
        }
        text
    }
}

fn plain_block(block: &str) -> Option<Notification> {
    let clean: String = block.chars().filter(|c| *c != '{' && *c != '}').collect();
    let mut record = Notification {
        summary: String::new(),
        body: String::new(),
        urgency: "NORMAL".to_string(),
        appname: String::new(),
    };
    let mut body: Vec<String> = Vec::new();
    let (mut in_body, mut keyed) = (false, false);
    for line in clean.lines().map(str::trim_start) {
        if line.starts_with("icon:") {
            break;
        }
        let was_in_body = in_body;
        in_body = false;
        if let Some(rest) = line.strip_prefix("summary:") {
            record.summary = rest.trim().trim_matches('\'').to_string();
        } else if let Some(rest) = line.strip_prefix("body:") {
            body.push(rest.trim_start().to_string());
            in_body = true;
        } else if let Some(rest) = line.strip_prefix("urgency:") {
            record.urgency = rest.trim().to_string();
        } else if let Some(rest) = line.strip_prefix("appname:") {
            record.appname = rest.trim().trim_matches('\'').to_string();
        } else if line.starts_with("icon_id:") {
        } else {
            in_body = was_in_body;
            if in_body {
                body.push(line.to_string());
            }
            continue;
        }
        keyed = true;
    }
    if !keyed {
        return None;
    }
    if let Some(first) = body.first_mut() {
        if let Some(rest) = first.strip_prefix('\'') {
            *first = rest.to_string();
        }
    }
    if let Some(last) = body.last_mut() {
        if let Some(rest) = last.strip_suffix('\'') {
            *last = rest.to_string();
        }
    }
    record.body = body.join("\n");
    Some(record)
}

#[test]
fn notifications_agree_with_a_plain_reading() {
    let pieces = [
        "summary:", "body:", "urgency:", "appname:", "icon_id:", "icon:", " ", "'", "\n", "\r\n",
        "{", "}", "}\n{", "a", "B", "\t", ":", "x y", "LOW", "''", "\u{a0}", "é",
    ];
    let mut texts = Texts { state: 7 };
    for _ in 0..20000 {
        let text = texts.text(&pieces, 14);
        let expected: Vec<Notification> = text.split("}\n{").filter_map(plain_block).collect();
        assert_eq!(read_notifications(&text), expected, "on {:?}", text);
    }
}

#[test]
fn launcher_agrees_with_a_plain_reading() {
    let pieces = ["Exec=", "Icon=", "\n", "\r\n", "a", " ", "/bin/x", "=", "#", "Exec", "\r"];
    let mut texts = Texts { state: 3 };
    for _ in 0..20000 {
        let text = texts.text(&pieces, 14);
        let mut expected = Vec::new();
        let mut waiting: Option<&str> = None;
        for line in text.lines() {
            if let Some(command) = line.strip_prefix("Exec=") {
                waiting = Some(command);
            } else if let Some(icon) = line.strip_prefix("Icon=") {
                if let Some(command) = waiting.take() {
                    expected.push((command.to_string(), icon.to_string()));
                }
            }
        }
        let got: Vec<(String, String)> =
            parse_launcher(&text).into_iter().map(|e| (e.command, e.icon)).collect();
        assert_eq!(got, expected, "on {:?}", text);
    }
}

#[test]
fn layout_agrees_with_a_plain_reading() {
    let pieces =
        ["file|", "|", "1", "-", "+", "20", " ", "x", "\n", "fill", "/p", "\r\n", "99999999999"];
    let mut texts = Texts { state: 11 };
    for _ in 0..20000 {
        let text = texts.text(&pieces, 16);
        let mut expected = Vec::new();
        let mut fill = false;
        for line in text.lines() {
            fill = fill || line.trim() == "fill";
            let parts: Vec<&str> = line.split('|').collect();
            if line.starts_with("file|") && parts.len() >= 8 {
                let number = |i: usize, default: i32| parts[i].parse().unwrap_or(default);
                expected.push((
                    number(1, 200),
                    number(2, 200),
                    number(3, 1),
                    number(4, 1),
                    number(5, 0),
                    number(6, 0),
                    parts[7].trim().to_string(),
                ));
            }
        }
        let layout = parse_layout(&text);
        let got: Vec<(i32, i32, i32, i32, i32, i32, String)> = layout
            .items
            .into_iter()
            .map(|i| (i.width, i.height, i.colspan, i.rowspan, i.col, i.row, i.path))
            .collect();
        assert_eq!(got, expected, "on {:?}", text);
        assert_eq!(layout.fill, fill, "on {:?}", text);
    }
}

#[test]
fn audio_answers_agree_with_a_plain_reading() {
    let pieces = ["/", "%", " ", "4", "0", "10", "yes", "no", "\n", "x", "+", "25", "y", "es"];
    let mut texts = Texts { state: 13 };
    for _ in 0..20000 {
        let text = texts.text(&pieces, 10);
        let expected = text
            .split('/')
            .nth(1)
            .and_then(|field| field.trim().trim_end_matches('%').parse::<u8>().ok())
            .map_or(0, |level| level.min(100));
        assert_eq!(parse_volume(&text), expected, "on {:?}", text);
        assert_eq!(parse_mute(&text), text.contains("yes"), "on {:?}", text);
    }
}
