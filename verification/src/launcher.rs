//! The launcher configuration: a line-oriented file of `Exec=` and `Icon=`
//! lines that pair up into launcher entries.

use crate::text::{
    copy_range, has_prefix, lines, rows, split_lines, starts_with, to_chars, to_string,
};
use vstd::prelude::*;

verus! {

/// One launcher icon: the command it runs and the name of its icon.
#[derive(Clone, Debug, PartialEq, Eq)]
pub struct LauncherEntry {
    pub command: String,
    pub icon: String,
}

impl View for LauncherEntry {
    type V = (Seq<char>, Seq<char>);

    open spec fn view(&self) -> (Seq<char>, Seq<char>) {
        (self.command@, self.icon@)
    }
}

impl LauncherEntry {
    /// A copy of this entry.
    pub fn duplicate(&self) -> (e: Self)
        ensures
            e == *self,
    {
        LauncherEntry { command: self.command.clone(), icon: self.icon.clone() }
    }
}

/// The views of `entries`: for each, its command and its icon name.
pub open spec fn entry_views(entries: Seq<LauncherEntry>) -> Seq<(Seq<char>, Seq<char>)> {
    entries.map_values(|e: LauncherEntry| e@)
}

/// The text `Exec=`, which begins a command line.
pub open spec fn exec_key() -> Seq<char> {
    seq!['E', 'x', 'e', 'c', '=']
}

/// The text `Icon=`, which begins an icon line.
pub open spec fn icon_key() -> Seq<char> {
    seq!['I', 'c', 'o', 'n', '=']
}

/// The entries that `lines` give, read in order, when `pending` is the
/// command that waits for its icon. A command line sets the waiting command,
/// replacing one that still waited. An icon line completes the waiting
/// command to an entry; with no command waiting it is passed over, as is
/// every other line. A command that still waits at the end gives no entry.
pub open spec fn paired(lines: Seq<Seq<char>>, pending: Option<Seq<char>>) -> Seq<
    (Seq<char>, Seq<char>),
>
    decreases lines.len(),
{
    if lines.len() == 0 {
        Seq::empty()
    } else {
        let line = lines[0];
        let rest = lines.drop_first();
        if starts_with(line, exec_key()) {
            paired(rest, Some(line.skip(5)))
        } else if starts_with(line, icon_key()) {
            match pending {
                Some(command) => seq![(command, line.skip(5))] + paired(rest, None),
                None => paired(rest, None),
            }
        } else {
            paired(rest, pending)
        }
    }
}

/// The launcher entries that the configuration text `text` holds.
pub open spec fn launcher_entries(text: Seq<char>) -> Seq<(Seq<char>, Seq<char>)> {
    paired(lines(text), None)
}

/// Parses the launcher configuration: the entries of [`launcher_entries`],
/// in file order.
pub fn parse_launcher(text: &str) -> (entries: Vec<LauncherEntry>)
    ensures
        entry_views(entries@) == launcher_entries(text@),
{
    let chars = to_chars(text);
    let all = split_lines(chars.as_slice());
    let exec_key: [char; 5] = ['E', 'x', 'e', 'c', '='];
    let icon_key: [char; 5] = ['I', 'c', 'o', 'n', '='];
    assert(exec_key@ == self::exec_key());
    assert(icon_key@ == self::icon_key());
    let mut entries: Vec<LauncherEntry> = Vec::new();
    let mut pending: Option<Vec<char>> = None;
    let mut i: usize = 0;
    assert(rows(all@).skip(0) == rows(all@));
    assert(entry_views(entries@) + launcher_entries(text@) == launcher_entries(text@));
    while i < all.len()
        invariant
            i <= all.len(),
            rows(all@) == lines(text@),
            exec_key@ == self::exec_key(),
            icon_key@ == self::icon_key(),
            launcher_entries(text@) == entry_views(entries@) + paired(
                rows(all@).skip(i as int),
                match pending {
                    Some(p) => Some(p@),
                    None => None,
                },
            ),
        decreases all.len() - i,
    {
        let line = &all[i];
        let ghost before = entry_views(entries@);
        let ghost tail = rows(all@).skip(i as int);
        proof {
            assert(tail[0] == line@);
            assert(tail.drop_first() == rows(all@).skip(i + 1));
        }
        if has_prefix(line.as_slice(), exec_key.as_slice()) {
            assert(line@.skip(5) == line@.subrange(5, line@.len() as int));
            pending = Some(copy_range(line.as_slice(), 5, line.len()));
        } else if has_prefix(line.as_slice(), icon_key.as_slice()) {
            assert(line@.skip(5) == line@.subrange(5, line@.len() as int));
            match pending {
                Some(command) => {
                    let icon = copy_range(line.as_slice(), 5, line.len());
                    let entry = LauncherEntry {
                        command: to_string(command.as_slice()),
                        icon: to_string(icon.as_slice()),
                    };
                    proof {
                        let rest = paired(rows(all@).skip(i + 1), None);
                        assert(entry_views(entries@.push(entry)) == before.push(entry@));
                        assert(before + (seq![entry@] + rest) == before.push(entry@) + rest);
                    }
                    entries.push(entry);
                },
                None => {},
            }
            pending = None;
        }
        i += 1;
    }
    assert(rows(all@).skip(all@.len() as int) == Seq::<Seq<char>>::empty());
    assert(entry_views(entries@) + Seq::<(Seq<char>, Seq<char>)>::empty() == entry_views(
        entries@,
    ));
    entries
}

/// How many of `lines` begin with `key`.
pub open spec fn count_keyed(lines: Seq<Seq<char>>, key: Seq<char>) -> nat
    decreases lines.len(),
{
    if lines.len() == 0 {
        0
    } else {
        count_keyed(lines.drop_first(), key) + if starts_with(lines[0], key) {
            1nat
        } else {
            0nat
        }
    }
}

/// No partial entries: there are at most as many entries as icon lines, and
/// at most as many as command lines, counting a command that already waits.
/// So a command without an icon line after it gives no entry.
pub proof fn lemma_entries_need_both_lines(lines: Seq<Seq<char>>, pending: Option<Seq<char>>)
    ensures
        paired(lines, pending).len() <= count_keyed(lines, icon_key()),
        paired(lines, pending).len() <= count_keyed(lines, exec_key()) + if pending is Some {
            1nat
        } else {
            0nat
        },
    decreases lines.len(),
{
    if lines.len() > 0 {
        let line = lines[0];
        let rest = lines.drop_first();
        assert(exec_key()[0] != icon_key()[0]);
        if starts_with(line, exec_key()) {
            assert(line[0] == exec_key()[0]);
            assert(!starts_with(line, icon_key())) by {
                if starts_with(line, icon_key()) {
                    assert(line[0] == icon_key()[0]);
                }
            }
            lemma_entries_need_both_lines(rest, Some(line.skip(5)));
        } else if starts_with(line, icon_key()) {
            lemma_entries_need_both_lines(rest, None);
        } else {
            lemma_entries_need_both_lines(rest, pending);
        }
    }
}

} // verus!
