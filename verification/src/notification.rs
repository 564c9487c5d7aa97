//! The notification log: an append-only text of brace-delimited blocks, the
//! records read from it, and the rows of the notification panel.

use crate::detector::Fingerprint;
use crate::failure::Failure;
use crate::text::{
    copy_range, has_prefix, join_lines, joined_lines, lines, removed, rows, split_lines,
    split_on, split_text, starts_with, strip_both, stripped_both, to_chars, to_string, trim,
    trim_start, trimmed, trimmed_start, without,
};
use vstd::prelude::*;

verus! {

/// One notification, as a block of the log describes it.
#[derive(Clone, Debug, PartialEq, Eq)]
pub struct Notification {
    pub summary: String,
    pub body: String,
    pub urgency: String,
    pub appname: String,
}

/// The mathematical view of a [`Notification`].
pub struct NotificationView {
    pub summary: Seq<char>,
    pub body: Seq<char>,
    pub urgency: Seq<char>,
    pub appname: Seq<char>,
}

impl View for Notification {
    type V = NotificationView;

    open spec fn view(&self) -> NotificationView {
        NotificationView {
            summary: self.summary@,
            body: self.body@,
            urgency: self.urgency@,
            appname: self.appname@,
        }
    }
}

impl Notification {
    /// A copy of this notification.
    pub fn duplicate(&self) -> (n: Self)
        ensures
            n == *self,
    {
        Notification {
            summary: self.summary.clone(),
            body: self.body.clone(),
            urgency: self.urgency.clone(),
            appname: self.appname.clone(),
        }
    }
}

impl Fingerprint for Notification {
    fn same(&self, other: &Self) -> (r: bool) {
        self.summary == other.summary && self.body == other.body && self.urgency == other.urgency
            && self.appname == other.appname
    }
}

/// The views of `records`.
pub open spec fn notification_views(records: Seq<Notification>) -> Seq<NotificationView> {
    records.map_values(|n: Notification| n@)
}

/// The text between two blocks of the log: a closing brace, a line feed and
/// an opening brace.
pub open spec fn boundary() -> Seq<char> {
    seq!['}', '\n', '{']
}

/// The key `summary:`.
pub open spec fn summary_key() -> Seq<char> {
    seq!['s', 'u', 'm', 'm', 'a', 'r', 'y', ':']
}

/// The key `body:`.
pub open spec fn body_key() -> Seq<char> {
    seq!['b', 'o', 'd', 'y', ':']
}

/// The key `urgency:`.
pub open spec fn urgency_key() -> Seq<char> {
    seq!['u', 'r', 'g', 'e', 'n', 'c', 'y', ':']
}

/// The key `appname:`.
pub open spec fn appname_key() -> Seq<char> {
    seq!['a', 'p', 'p', 'n', 'a', 'm', 'e', ':']
}

/// The key `icon_id:`, whose value is not kept.
pub open spec fn icon_id_key() -> Seq<char> {
    seq!['i', 'c', 'o', 'n', '_', 'i', 'd', ':']
}

/// The key `icon:`, at which the reading of a block stops.
pub open spec fn icon_key() -> Seq<char> {
    seq!['i', 'c', 'o', 'n', ':']
}

/// The urgency of a block that names none.
pub open spec fn default_urgency() -> Seq<char> {
    seq!['N', 'O', 'R', 'M', 'A', 'L']
}

/// What has been read of a block so far.
pub struct BlockState {
    pub summary: Seq<char>,
    /// The lines of the body, as they were read.
    pub body: Seq<Seq<char>>,
    pub urgency: Seq<char>,
    pub appname: Seq<char>,
    /// Whether the line before belonged to the body, so that the next line
    /// continues it unless it begins with a key.
    pub in_body: bool,
    /// Whether a key has been met.
    pub keyed: bool,
}

/// The state before the first line of a block.
pub open spec fn initial_block() -> BlockState {
    BlockState {
        summary: Seq::empty(),
        body: Seq::empty(),
        urgency: default_urgency(),
        appname: Seq::empty(),
        in_body: false,
        keyed: false,
    }
}

/// A value in quotes: `rest` trimmed, then without the quote characters at
/// its ends.
pub open spec fn quoted_value(rest: Seq<char>) -> Seq<char> {
    strip_both(trim(rest), '\'')
}

/// The state after the line `t`, which has no leading white space. A line
/// that begins with a key sets that key's value, the last such line
/// counting; `body:` begins a body with what follows the key on its line,
/// and each line after it continues the body until a line begins with a key.
/// Other lines are passed over.
pub open spec fn block_step(st: BlockState, t: Seq<char>) -> BlockState {
    if starts_with(t, summary_key()) {
        BlockState { summary: quoted_value(t.skip(8)), in_body: false, keyed: true, ..st }
    } else if starts_with(t, body_key()) {
        BlockState { body: st.body.push(trim_start(t.skip(5))), in_body: true, keyed: true, ..st }
    } else if starts_with(t, urgency_key()) {
        BlockState { urgency: trim(t.skip(8)), in_body: false, keyed: true, ..st }
    } else if starts_with(t, appname_key()) {
        BlockState { appname: quoted_value(t.skip(8)), in_body: false, keyed: true, ..st }
    } else if starts_with(t, icon_id_key()) {
        BlockState { in_body: false, keyed: true, ..st }
    } else if st.in_body {
        BlockState { body: st.body.push(t), ..st }
    } else {
        st
    }
}

/// The state after `lines`, read in order from the state `st`. Leading white
/// space of a line does not count. Reading stops at a line that begins with
/// `icon:`.
pub open spec fn block_scan(lines: Seq<Seq<char>>, st: BlockState) -> BlockState
    decreases lines.len(),
{
    if lines.len() == 0 {
        st
    } else {
        let t = trim_start(lines[0]);
        if starts_with(t, icon_key()) {
            st
        } else {
            block_scan(lines.drop_first(), block_step(st, t))
        }
    }
}

/// `line` without a quote character at its start.
pub open spec fn open_quote_off(line: Seq<char>) -> Seq<char> {
    if line.len() > 0 && line[0] == '\'' {
        line.drop_first()
    } else {
        line
    }
}

/// `line` without a quote character at its end.
pub open spec fn close_quote_off(line: Seq<char>) -> Seq<char> {
    if line.len() > 0 && line.last() == '\'' {
        line.drop_last()
    } else {
        line
    }
}

/// The lines of a body without the quote that opens the first line and the
/// quote that closes the last.
pub open spec fn unquoted(body: Seq<Seq<char>>) -> Seq<Seq<char>> {
    if body.len() == 0 {
        body
    } else {
        let opened = body.update(0, open_quote_off(body[0]));
        opened.update(opened.len() - 1, close_quote_off(opened.last()))
    }
}

/// The record that the block `block` gives: its braces are dropped, its
/// lines read by [`block_scan`], and the body lines joined. A block in which
/// no key is met is malformed and gives no record.
pub open spec fn block_record(block: Seq<char>) -> Option<NotificationView> {
    let st = block_scan(lines(without(block, '{', '}')), initial_block());
    if st.keyed {
        Some(
            NotificationView {
                summary: st.summary,
                body: join_lines(unquoted(st.body)),
                urgency: st.urgency,
                appname: st.appname,
            },
        )
    } else {
        None
    }
}

/// The records of `blocks`, in order; malformed blocks are skipped.
pub open spec fn records_of(blocks: Seq<Seq<char>>) -> Seq<NotificationView>
    decreases blocks.len(),
{
    if blocks.len() == 0 {
        Seq::empty()
    } else {
        match block_record(blocks.last()) {
            Some(record) => records_of(blocks.drop_last()).push(record),
            None => records_of(blocks.drop_last()),
        }
    }
}

/// The records of the notification log `text`, oldest first.
pub open spec fn log_records(text: Seq<char>) -> Seq<NotificationView> {
    records_of(split_on(text, boundary()))
}

/// What has been read of a block so far, in executable form.
struct BlockReader {
    summary: Vec<char>,
    body: Vec<Vec<char>>,
    urgency: Vec<char>,
    appname: Vec<char>,
    in_body: bool,
    keyed: bool,
}

impl BlockReader {
    spec fn state(self) -> BlockState {
        BlockState {
            summary: self.summary@,
            body: rows(self.body@),
            urgency: self.urgency@,
            appname: self.appname@,
            in_body: self.in_body,
            keyed: self.keyed,
        }
    }

    fn new() -> (r: Self)
        ensures
            r.state() == initial_block(),
    {
        let r = BlockReader {
            summary: Vec::new(),
            body: Vec::new(),
            urgency: vec!['N', 'O', 'R', 'M', 'A', 'L'],
            appname: Vec::new(),
            in_body: false,
            keyed: false,
        };
        assert(rows(r.body@) == Seq::<Seq<char>>::empty());
        r
    }

    /// Computes [`block_step`].
    fn step(self, t: &[char]) -> (r: Self)
        ensures
            r.state() == block_step(self.state(), t@),
    {
        let summary_key: [char; 8] = ['s', 'u', 'm', 'm', 'a', 'r', 'y', ':'];
        let body_key: [char; 5] = ['b', 'o', 'd', 'y', ':'];
        let urgency_key: [char; 8] = ['u', 'r', 'g', 'e', 'n', 'c', 'y', ':'];
        let appname_key: [char; 8] = ['a', 'p', 'p', 'n', 'a', 'm', 'e', ':'];
        let icon_id_key: [char; 8] = ['i', 'c', 'o', 'n', '_', 'i', 'd', ':'];
        assert(summary_key@ == self::summary_key());
        assert(body_key@ == self::body_key());
        assert(urgency_key@ == self::urgency_key());
        assert(appname_key@ == self::appname_key());
        assert(icon_id_key@ == self::icon_id_key());
        let mut r = self;
        if has_prefix(t, summary_key.as_slice()) {
            r.summary = quoted(t, 8);
            r.in_body = false;
            r.keyed = true;
        } else if has_prefix(t, body_key.as_slice()) {
            assert(t@.skip(5) == t@.subrange(5, t@.len() as int));
            let rest = copy_range(t, 5, t.len());
            let first = trimmed_start(rest.as_slice());
            assert(rows(r.body@.push(first)) == rows(r.body@).push(first@));
            r.body.push(first);
            r.in_body = true;
            r.keyed = true;
        } else if has_prefix(t, urgency_key.as_slice()) {
            assert(t@.skip(8) == t@.subrange(8, t@.len() as int));
            let rest = copy_range(t, 8, t.len());
            r.urgency = trimmed(rest.as_slice());
            r.in_body = false;
            r.keyed = true;
        } else if has_prefix(t, appname_key.as_slice()) {
            r.appname = quoted(t, 8);
            r.in_body = false;
            r.keyed = true;
        } else if has_prefix(t, icon_id_key.as_slice()) {
            r.in_body = false;
            r.keyed = true;
        } else if r.in_body {
            assert(t@.subrange(0, t@.len() as int) == t@);
            let line = copy_range(t, 0, t.len());
            assert(rows(r.body@.push(line)) == rows(r.body@).push(line@));
            r.body.push(line);
        }
        r
    }
}

/// Computes [`quoted_value`] of what follows the first `from` characters.
fn quoted(t: &[char], from: usize) -> (v: Vec<char>)
    requires
        from <= t.len(),
    ensures
        v@ == quoted_value(t@.skip(from as int)),
{
    assert(t@.skip(from as int) == t@.subrange(from as int, t@.len() as int));
    let rest = copy_range(t, from, t.len());
    let inner = trimmed(rest.as_slice());
    stripped_both(inner.as_slice(), '\'')
}

/// Computes [`unquoted`].
fn unquote(body: &Vec<Vec<char>>) -> (out: Vec<Vec<char>>)
    ensures
        rows(out@) == unquoted(rows(body@)),
{
    let n = body.len();
    let mut out: Vec<Vec<char>> = Vec::new();
    let mut k: usize = 0;
    while k < n
        invariant
            k <= n == body.len(),
            out@.len() == k,
            forall|j: int| 0 <= j < k ==> (#[trigger] out@[j])@ == unquoted(rows(body@))[j],
        decreases n - k,
    {
        let line = &body[k];
        let from: usize = if k == 0 && line.len() > 0 && line[0] == '\'' {
            1
        } else {
            0
        };
        let to: usize = if k == n - 1 && line.len() > from && line[line.len() - 1] == '\'' {
            line.len() - 1
        } else {
            line.len()
        };
        let piece = copy_range(line.as_slice(), from, to);
        proof {
            let b = rows(body@);
            assert(b[k as int] == line@);
            let opened = b.update(0, open_quote_off(b[0]));
            let mid = line@.subrange(from as int, line@.len() as int);
            if from == 1 {
                assert(line@.drop_first() == mid);
            } else {
                assert(line@ == mid);
            }
            assert(opened[k as int] == mid);
            if to < line.len() {
                assert(mid.last() == line@[line@.len() - 1]);
                assert(mid.drop_last() == piece@);
            } else {
                assert(mid == piece@);
                if mid.len() > 0 {
                    assert(mid.last() == line@[line@.len() - 1]);
                }
            }
            assert(piece@ == unquoted(b)[k as int]);
        }
        out.push(piece);
        k += 1;
    }
    assert(rows(out@) =~= unquoted(rows(body@)));
    out
}

/// Reads one block of the log: computes [`block_record`]. A malformed
/// block is a parse error.
pub fn parse_block(block: &[char]) -> (record: Result<Notification, Failure>)
    ensures
        match block_record(block@) {
            Some(v) => record matches Ok(n) && n@ == v,
            None => record == Err::<Notification, Failure>(Failure::ParseError),
        },
{
    let icon_key: [char; 5] = ['i', 'c', 'o', 'n', ':'];
    assert(icon_key@ == self::icon_key());
    let clean = removed(block, '{', '}');
    let all = split_lines(clean.as_slice());
    let mut reader = BlockReader::new();
    let mut i: usize = 0;
    let mut stopped = false;
    let ghost goal = block_scan(rows(all@), initial_block());
    assert(rows(all@).skip(0) == rows(all@));
    while i < all.len() && !stopped
        invariant
            i <= all.len(),
            icon_key@ == self::icon_key(),
            goal == (if stopped {
                reader.state()
            } else {
                block_scan(rows(all@).skip(i as int), reader.state())
            }),
        decreases
                all.len() - i + (if stopped {
                    0int
                } else {
                    1int
                }),
    {
        let ghost tail = rows(all@).skip(i as int);
        proof {
            assert(tail[0] == all@[i as int]@);
            assert(tail.drop_first() == rows(all@).skip(i + 1));
        }
        let t = trimmed_start(all[i].as_slice());
        if has_prefix(t.as_slice(), icon_key.as_slice()) {
            stopped = true;
        } else {
            reader = reader.step(t.as_slice());
            i += 1;
        }
    }
    assert(!stopped ==> rows(all@).skip(i as int) == Seq::<Seq<char>>::empty());
    if !reader.keyed {
        return Err(Failure::ParseError);
    }
    let body_lines = unquote(&reader.body);
    let body = joined_lines(&body_lines);
    Ok(
        Notification {
            summary: to_string(reader.summary.as_slice()),
            body: to_string(body.as_slice()),
            urgency: to_string(reader.urgency.as_slice()),
            appname: to_string(reader.appname.as_slice()),
        },
    )
}

/// Reads the notification log: the records of [`log_records`], oldest first.
pub fn read_notifications(text: &str) -> (records: Vec<Notification>)
    ensures
        notification_views(records@) == log_records(text@),
{
    let chars = to_chars(text);
    let sep: [char; 3] = ['}', '\n', '{'];
    assert(sep@ == boundary());
    let blocks = split_text(chars.as_slice(), sep.as_slice());
    let mut records: Vec<Notification> = Vec::new();
    let mut i: usize = 0;
    assert(rows(blocks@).take(0) == Seq::<Seq<char>>::empty());
    assert(notification_views(records@) == Seq::<NotificationView>::empty());
    while i < blocks.len()
        invariant
            i <= blocks.len(),
            notification_views(records@) == records_of(rows(blocks@).take(i as int)),
        decreases blocks.len() - i,
    {
        let ghost before = notification_views(records@);
        proof {
            let more = rows(blocks@).take(i + 1);
            assert(more.drop_last() == rows(blocks@).take(i as int));
            assert(more.last() == blocks@[i as int]@);
        }
        match parse_block(blocks[i].as_slice()) {
            Ok(n) => {
                assert(notification_views(records@.push(n)) == before.push(n@));
                records.push(n);
            },
            Err(_) => {},
        }
        i += 1;
    }
    assert(rows(blocks@).take(blocks@.len() as int) == rows(blocks@));
    records
}

} // verus!
