//! The notification panel: the rows that list the records of the log,
//! newest first.

use crate::notification::{log_records, read_notifications, Notification, NotificationView};
use crate::text::{to_chars, to_string};
use vstd::prelude::*;

verus! {

/// The styles by which the rows of the panel tell urgencies apart.
#[derive(Clone, Copy, Debug, PartialEq, Eq, Structural)]
pub enum UrgencyStyle {
    Low,
    Normal,
    Critical,
}

impl UrgencyStyle {
    /// The name of the style in the stylesheet.
    pub open spec fn name_spec(self) -> Seq<char> {
        match self {
            UrgencyStyle::Low => "noti-low"@,
            UrgencyStyle::Normal => "noti-normal"@,
            UrgencyStyle::Critical => "noti-critical"@,
        }
    }

    /// The name of the style in the stylesheet.
    pub fn name(&self) -> (name: &'static str)
        ensures
            name@ == self.name_spec(),
    {
        match self {
            UrgencyStyle::Low => "noti-low",
            UrgencyStyle::Normal => "noti-normal",
            UrgencyStyle::Critical => "noti-critical",
        }
    }
}

/// Whether `c` is the small letter `small` or its capital.
pub open spec fn same_letter(c: char, small: char) -> bool {
    c == small || ('A' <= c <= 'Z' && c as u32 + 32 == small as u32)
}

/// Whether `s` is the word `word`, which is written in small letters, when
/// capitals count as their small letters.
pub open spec fn is_word(s: Seq<char>, word: Seq<char>) -> bool {
    s.len() == word.len() && forall|i: int| 0 <= i < s.len() ==> same_letter(s[i], word[i])
}

/// The style for an urgency: by the words `low` and `critical`, however
/// they are capitalised, and the normal style for any other text.
pub open spec fn style_of(urgency: Seq<char>) -> UrgencyStyle {
    if is_word(urgency, "low"@) {
        UrgencyStyle::Low
    } else if is_word(urgency, "critical"@) {
        UrgencyStyle::Critical
    } else {
        UrgencyStyle::Normal
    }
}

/// Decides [`is_word`].
fn matches_word(s: &[char], word: &[char]) -> (r: bool)
    ensures
        r == is_word(s@, word@),
{
    if s.len() != word.len() {
        return false;
    }
    let mut i: usize = 0;
    while i < s.len()
        invariant
            i <= s.len() == word.len(),
            forall|j: int| 0 <= j < i ==> same_letter(s@[j], word@[j]),
        decreases s.len() - i,
    {
        let c = s[i];
        let w = word[i];
        let same = c == w || (c >= 'A' && c <= 'Z' && c as u32 + 32 == w as u32);
        if !same {
            return false;
        }
        i += 1;
    }
    true
}

/// Computes [`style_of`].
pub fn urgency_style(urgency: &str) -> (style: UrgencyStyle)
    ensures
        style == style_of(urgency@),
{
    let chars = to_chars(urgency);
    let low = to_chars("low");
    let critical = to_chars("critical");
    if matches_word(chars.as_slice(), low.as_slice()) {
        UrgencyStyle::Low
    } else if matches_word(chars.as_slice(), critical.as_slice()) {
        UrgencyStyle::Critical
    } else {
        UrgencyStyle::Normal
    }
}

/// One row of the panel.
#[derive(Clone, Debug, PartialEq, Eq)]
pub enum PanelRow {
    /// The row that says that there is nothing new.
    Nothing,
    /// A notification: its text in markup, and the style of its urgency.
    Entry { markup: String, style: UrgencyStyle },
}

/// The mathematical view of a [`PanelRow`].
pub enum PanelRowView {
    Nothing,
    Entry { markup: Seq<char>, style: UrgencyStyle },
}

impl View for PanelRow {
    type V = PanelRowView;

    open spec fn view(&self) -> PanelRowView {
        match self {
            PanelRow::Nothing => PanelRowView::Nothing,
            PanelRow::Entry { markup, style } => PanelRowView::Entry {
                markup: markup@,
                style: *style,
            },
        }
    }
}

/// The views of `rows`.
pub open spec fn row_views(rows: Seq<PanelRow>) -> Seq<PanelRowView> {
    rows.map_values(|r: PanelRow| r@)
}

/// The text in which the panel shows a notification: the summary in bold,
/// a line feed, and the body.
pub open spec fn markup_of(n: NotificationView) -> Seq<char> {
    "<b>"@ + n.summary + "</b>\n"@ + n.body
}

/// The row for one record: the row for nothing new where summary and body
/// are both empty, else its text and style.
pub open spec fn row_of(n: NotificationView) -> PanelRowView {
    if n.summary.len() == 0 && n.body.len() == 0 {
        PanelRowView::Nothing
    } else {
        PanelRowView::Entry { markup: markup_of(n), style: style_of(n.urgency) }
    }
}

/// The rows of the panel for `records`, which are given oldest first: one
/// row for each, the newest on top. A panel without records has the one row
/// that says that there is nothing new.
pub open spec fn panel_rows(records: Seq<NotificationView>) -> Seq<PanelRowView> {
    if records.len() == 0 {
        seq![PanelRowView::Nothing]
    } else {
        Seq::new(records.len(), |i: int| row_of(records[records.len() - 1 - i]))
    }
}

/// Computes [`markup_of`].
pub fn markup(n: &Notification) -> (text: String)
    ensures
        text@ == markup_of(n@),
{
    let mut out = to_chars("<b>");
    let mut summary = to_chars(n.summary.as_str());
    out.append(&mut summary);
    let mut close = to_chars("</b>\n");
    out.append(&mut close);
    let mut body = to_chars(n.body.as_str());
    out.append(&mut body);
    to_string(out.as_slice())
}

/// Computes [`row_of`].
pub fn panel_row(n: &Notification) -> (row: PanelRow)
    ensures
        row@ == row_of(n@),
{
    let summary = to_chars(n.summary.as_str());
    let body = to_chars(n.body.as_str());
    if summary.len() == 0 && body.len() == 0 {
        PanelRow::Nothing
    } else {
        PanelRow::Entry { markup: markup(n), style: urgency_style(n.urgency.as_str()) }
    }
}

/// Builds the notification panel from the text of the log: computes
/// [`panel_rows`] of its records.
pub fn build_window(log: &str) -> (rows: Vec<PanelRow>)
    ensures
        row_views(rows@) == panel_rows(log_records(log@)),
{
    let records = read_notifications(log);
    let ghost views = crate::notification::notification_views(records@);
    let mut rows: Vec<PanelRow> = Vec::new();
    if records.len() == 0 {
        rows.push(PanelRow::Nothing);
        assert(row_views(rows@) =~= panel_rows(views));
        return rows;
    }
    let n = records.len();
    let mut i: usize = 0;
    while i < n
        invariant
            i <= n == records.len(),
            views == crate::notification::notification_views(records@),
            rows@.len() == i,
            forall|j: int| 0 <= j < i ==> (#[trigger] rows@[j])@ == row_of(views[n - 1 - j]),
        decreases n - i,
    {
        let row = panel_row(&records[n - 1 - i]);
        rows.push(row);
        i += 1;
    }
    assert(row_views(rows@) =~= panel_rows(views));
    rows
}

} // verus!
