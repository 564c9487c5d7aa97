//! Character-sequence primitives shared by the probes and the parsers.
//!
//! Text is handled as a sequence of `char`s. Every executable function here
//! has a specification over `Seq<char>` with the same name, or a closely
//! related one, so that the parsers built on top can state exactly what they
//! return.

use vstd::prelude::*;

verus! {

/// `String::push` of the standard library: the character is appended at the
/// end and nothing else changes.
pub assume_specification[ String::push ](s: &mut String, c: char)
    ensures
        final(s)@ == old(s)@.push(c),
;

/// The characters of `s`, in order.
pub fn to_chars(s: &str) -> (v: Vec<char>)
    ensures
        v@ == s@,
{
    let mut v: Vec<char> = Vec::new();
    for c in it: s.chars()
        invariant
            v@ == it.seq().take(it.index()),
            it.seq() == s@,
    {
        v.push(c);
    }
    v
}

/// A `String` made of the characters of `v`, in order.
pub fn to_string(v: &[char]) -> (s: String)
    ensures
        s@ == v@,
{
    let mut s = String::new();
    let mut i: usize = 0;
    while i < v.len()
        invariant
            i <= v.len(),
            s@ == v@.take(i as int),
        decreases v.len() - i,
    {
        s.push(v[i]);
        i += 1;
    }
    s
}

/// A copy of the characters of `s` from index `from` up to, not including, `to`.
pub fn copy_range(s: &[char], from: usize, to: usize) -> (v: Vec<char>)
    requires
        from <= to <= s.len(),
    ensures
        v@ == s@.subrange(from as int, to as int),
{
    let mut v: Vec<char> = Vec::new();
    let mut i: usize = from;
    while i < to
        invariant
            from <= i <= to <= s.len(),
            v@ == s@.subrange(from as int, i as int),
        decreases to - i,
    {
        v.push(s[i]);
        i += 1;
    }
    v
}

/// Whether two character sequences are equal.
pub fn same_chars(a: &[char], b: &[char]) -> (r: bool)
    ensures
        r == (a@ == b@),
{
    if a.len() != b.len() {
        return false;
    }
    let mut i: usize = 0;
    while i < a.len()
        invariant
            i <= a.len() == b.len(),
            a@.take(i as int) == b@.take(i as int),
        decreases a.len() - i,
    {
        if a[i] != b[i] {
            return false;
        }
        assert(a@.take(i + 1) == a@.take(i as int).push(a@[i as int]));
        assert(b@.take(i + 1) == b@.take(i as int).push(b@[i as int]));
        i += 1;
    }
    assert(a@.take(a@.len() as int) == a@);
    assert(b@.take(b@.len() as int) == b@);
    true
}

/// The characters with the Unicode property `White_Space`: the ones that
/// trimming removes.
pub open spec fn is_space(c: char) -> bool {
    ||| '\u{9}' <= c <= '\u{d}'
    ||| c == ' '
    ||| c == '\u{85}'
    ||| c == '\u{a0}'
    ||| c == '\u{1680}'
    ||| '\u{2000}' <= c <= '\u{200a}'
    ||| c == '\u{2028}'
    ||| c == '\u{2029}'
    ||| c == '\u{202f}'
    ||| c == '\u{205f}'
    ||| c == '\u{3000}'
}

/// Decides [`is_space`].
pub fn is_space_char(c: char) -> (r: bool)
    ensures
        r == is_space(c),
{
    (c >= '\u{9}' && c <= '\u{d}') || c == ' ' || c == '\u{85}' || c == '\u{a0}' || c == '\u{1680}'
        || (c >= '\u{2000}' && c <= '\u{200a}') || c == '\u{2028}' || c == '\u{2029}' || c
        == '\u{202f}' || c == '\u{205f}' || c == '\u{3000}'
}

/// `s` without its leading white space.
pub open spec fn trim_start(s: Seq<char>) -> Seq<char>
    decreases s.len(),
{
    if s.len() > 0 && is_space(s[0]) {
        trim_start(s.drop_first())
    } else {
        s
    }
}

/// `s` without its trailing white space.
pub open spec fn trim_end(s: Seq<char>) -> Seq<char>
    decreases s.len(),
{
    if s.len() > 0 && is_space(s.last()) {
        trim_end(s.drop_last())
    } else {
        s
    }
}

/// `s` without leading and trailing white space.
pub open spec fn trim(s: Seq<char>) -> Seq<char> {
    trim_end(trim_start(s))
}

/// `s` without any leading occurrence of `c`.
pub open spec fn strip_leading(s: Seq<char>, c: char) -> Seq<char>
    decreases s.len(),
{
    if s.len() > 0 && s[0] == c {
        strip_leading(s.drop_first(), c)
    } else {
        s
    }
}

/// `s` without any trailing occurrence of `c`.
pub open spec fn strip_trailing(s: Seq<char>, c: char) -> Seq<char>
    decreases s.len(),
{
    if s.len() > 0 && s.last() == c {
        strip_trailing(s.drop_last(), c)
    } else {
        s
    }
}

/// `s` without any leading or trailing occurrence of `c`.
pub open spec fn strip_both(s: Seq<char>, c: char) -> Seq<char> {
    strip_trailing(strip_leading(s, c), c)
}

/// Index of the first character of `s` at or after `from` that is no white
/// space, or `s.len()`.
fn skip_spaces(s: &[char], from: usize) -> (k: usize)
    requires
        from <= s.len(),
    ensures
        from <= k <= s.len(),
        s@.skip(k as int) == trim_start(s@.skip(from as int)),
{
    let mut k: usize = from;
    while k < s.len() && is_space_char(s[k])
        invariant
            from <= k <= s.len(),
            trim_start(s@.skip(k as int)) == trim_start(s@.skip(from as int)),
        decreases s.len() - k,
    {
        assert(s@.skip(k as int).drop_first() == s@.skip(k + 1));
        k += 1;
    }
    k
}

/// Computes [`trim_start`].
pub fn trimmed_start(s: &[char]) -> (v: Vec<char>)
    ensures
        v@ == trim_start(s@),
{
    let k = skip_spaces(s, 0);
    assert(s@.skip(0) == s@);
    assert(s@.skip(k as int) == s@.subrange(k as int, s@.len() as int));
    copy_range(s, k, s.len())
}

/// Computes [`trim_end`].
pub fn trimmed_end(s: &[char]) -> (v: Vec<char>)
    ensures
        v@ == trim_end(s@),
{
    let mut k: usize = s.len();
    assert(s@.take(k as int) == s@);
    while k > 0 && is_space_char(s[k - 1])
        invariant
            k <= s.len(),
            trim_end(s@.take(k as int)) == trim_end(s@),
        decreases k,
    {
        assert(s@.take(k as int).drop_last() == s@.take(k - 1));
        k -= 1;
    }
    assert(s@.take(k as int) == s@.subrange(0, k as int));
    copy_range(s, 0, k)
}

/// Computes [`trim`].
pub fn trimmed(s: &[char]) -> (v: Vec<char>)
    ensures
        v@ == trim(s@),
{
    let a = trimmed_start(s);
    trimmed_end(a.as_slice())
}

/// Computes [`strip_leading`].
pub fn stripped_leading(s: &[char], c: char) -> (v: Vec<char>)
    ensures
        v@ == strip_leading(s@, c),
{
    let mut k: usize = 0;
    assert(s@.skip(0) == s@);
    while k < s.len() && s[k] == c
        invariant
            k <= s.len(),
            strip_leading(s@.skip(k as int), c) == strip_leading(s@, c),
        decreases s.len() - k,
    {
        assert(s@.skip(k as int).drop_first() == s@.skip(k + 1));
        k += 1;
    }
    assert(s@.skip(k as int) == s@.subrange(k as int, s@.len() as int));
    copy_range(s, k, s.len())
}

/// Computes [`strip_trailing`].
pub fn stripped_trailing(s: &[char], c: char) -> (v: Vec<char>)
    ensures
        v@ == strip_trailing(s@, c),
{
    let mut k: usize = s.len();
    assert(s@.take(k as int) == s@);
    while k > 0 && s[k - 1] == c
        invariant
            k <= s.len(),
            strip_trailing(s@.take(k as int), c) == strip_trailing(s@, c),
        decreases k,
    {
        assert(s@.take(k as int).drop_last() == s@.take(k - 1));
        k -= 1;
    }
    assert(s@.take(k as int) == s@.subrange(0, k as int));
    copy_range(s, 0, k)
}

/// Computes [`strip_both`].
pub fn stripped_both(s: &[char], c: char) -> (v: Vec<char>)
    ensures
        v@ == strip_both(s@, c),
{
    let a = stripped_leading(s, c);
    stripped_trailing(a.as_slice(), c)
}

/// Whether `s` begins with `prefix`.
pub open spec fn starts_with(s: Seq<char>, prefix: Seq<char>) -> bool {
    prefix.is_prefix_of(s)
}

/// Whether `needle` stands in `s` at index `at`.
fn occurs_at(s: &[char], at: usize, needle: &[char]) -> (r: bool)
    requires
        at <= s.len(),
    ensures
        r == starts_with(s@.skip(at as int), needle@),
{
    if needle.len() > s.len() - at {
        return false;
    }
    let mut i: usize = 0;
    while i < needle.len()
        invariant
            at + needle.len() <= s.len(),
            i <= needle.len(),
            forall|j: int| 0 <= j < i ==> s@[at + j] == needle@[j],
        decreases needle.len() - i,
    {
        if s[at + i] != needle[i] {
            let ghost head = s@.skip(at as int).subrange(0, needle@.len() as int);
            assert(head[i as int] != needle@[i as int]);
            return false;
        }
        i += 1;
    }
    assert(needle@ =~= s@.skip(at as int).subrange(0, needle@.len() as int));
    true
}

/// Decides [`starts_with`].
pub fn has_prefix(s: &[char], prefix: &[char]) -> (r: bool)
    ensures
        r == starts_with(s@, prefix@),
{
    assert(s@.skip(0) == s@);
    occurs_at(s, 0, prefix)
}

/// Index of the first `c` in `s`, or `s.len()` where there is none.
pub open spec fn first_index(s: Seq<char>, c: char) -> nat
    decreases s.len(),
{
    if s.len() == 0 || s[0] == c {
        0
    } else {
        1 + first_index(s.drop_first(), c)
    }
}

/// [`first_index`] stays within `s`, passes no `c`, and stops on one.
pub proof fn lemma_first_index(s: Seq<char>, c: char)
    ensures
        first_index(s, c) <= s.len(),
        forall|i: int| 0 <= i < first_index(s, c) ==> s[i] != c,
        first_index(s, c) < s.len() ==> s[first_index(s, c) as int] == c,
    decreases s.len(),
{
    if s.len() == 0 || s[0] == c {
    } else {
        lemma_first_index(s.drop_first(), c);
        let k = first_index(s.drop_first(), c);
        assert forall|i: int| 0 <= i < first_index(s, c) implies s[i] != c by {
            if i > 0 {
                assert(s.drop_first()[i - 1] == s[i]);
            }
        }
        if first_index(s, c) < s.len() {
            assert(s.drop_first()[k as int] == s[k as int + 1]);
        }
    }
}

/// Index of the first `c` at or after `from`, or `s.len()`.
fn find_char(s: &[char], from: usize, c: char) -> (k: usize)
    requires
        from <= s.len(),
    ensures
        from <= k <= s.len(),
        k == from + first_index(s@.skip(from as int), c),
{
    let mut k: usize = from;
    while k < s.len() && s[k] != c
        invariant
            from <= k <= s.len(),
            from + first_index(s@.skip(from as int), c) == k + first_index(s@.skip(k as int), c),
        decreases s.len() - k,
    {
        assert(s@.skip(k as int).drop_first() == s@.skip(k + 1));
        k += 1;
    }
    k
}

/// The first line of `s`: what stands before the first line feed, without
/// the carriage return that may precede that line feed.
pub open spec fn first_line(s: Seq<char>) -> Seq<char> {
    let e = first_index(s, '\n') as int;
    if 0 < e < s.len() && s[e - 1] == '\r' {
        s.take(e - 1)
    } else {
        s.take(e)
    }
}

/// What follows the first line of `s` and its line feed.
pub open spec fn after_first_line(s: Seq<char>) -> Seq<char> {
    let e = first_index(s, '\n') as int;
    if e < s.len() {
        s.skip(e + 1)
    } else {
        Seq::empty()
    }
}

/// The lines of `s`. Lines end at a line feed or at a carriage return
/// followed by a line feed; the last line needs no line ending, and an empty
/// text has no lines.
pub open spec fn lines(s: Seq<char>) -> Seq<Seq<char>>
    decreases s.len(),
{
    if s.len() == 0 {
        Seq::empty()
    } else {
        seq![first_line(s)] + lines(after_first_line(s))
    }
}

/// No line holds a line feed.
pub proof fn lemma_lines_hold_no_line_feed(s: Seq<char>, k: int, i: int)
    requires
        0 <= k < lines(s).len(),
        0 <= i < lines(s)[k].len(),
    ensures
        lines(s)[k][i] != '\n',
    decreases s.len(),
{
    lemma_first_index(s, '\n');
    if k == 0 {
        assert(lines(s)[0] == first_line(s));
    } else {
        let rest = after_first_line(s);
        assert(lines(s)[k] == lines(rest)[k - 1]);
        lemma_lines_hold_no_line_feed(rest, k - 1, i);
    }
}

/// The character sequences that the vectors of `v` hold.
pub open spec fn rows(v: Seq<Vec<char>>) -> Seq<Seq<char>> {
    v.map_values(|l: Vec<char>| l@)
}

/// Computes [`lines`].
pub fn split_lines(s: &[char]) -> (out: Vec<Vec<char>>)
    ensures
        rows(out@) == lines(s@),
{
    let mut out: Vec<Vec<char>> = Vec::new();
    let mut pos: usize = 0;
    assert(s@.skip(0) == s@);
    assert(rows(out@) + lines(s@) == lines(s@));
    while pos < s.len()
        invariant
            pos <= s.len(),
            lines(s@) == rows(out@) + lines(s@.skip(pos as int)),
        decreases s.len() - pos,
    {
        let ghost tail = s@.skip(pos as int);
        let ghost before = rows(out@);
        let e = find_char(s, pos, '\n');
        let stop = if e < s.len() && e > pos && s[e - 1] == '\r' {
            e - 1
        } else {
            e
        };
        let line = copy_range(s, pos, stop);
        let next = if e < s.len() {
            e + 1
        } else {
            e
        };
        proof {
            assert(tail.take(stop - pos) == s@.subrange(pos as int, stop as int));
            assert(line@ == first_line(tail));
            assert(s@.skip(next as int) == after_first_line(tail)) by {
                if e < s.len() {
                    assert(tail.skip(e - pos + 1) == s@.skip(e + 1));
                } else {
                    assert(s@.skip(s@.len() as int) == Seq::<char>::empty());
                }
            }
            assert(rows(out@.push(line)) == before.push(line@));
            assert(before + (seq![line@] + lines(s@.skip(next as int))) == before.push(line@)
                + lines(s@.skip(next as int)));
        }
        out.push(line);
        pos = next;
    }
    assert(lines(s@.skip(pos as int)) == Seq::<Seq<char>>::empty());
    assert(rows(out@) + Seq::<Seq<char>>::empty() == rows(out@));
    out
}

/// The pieces of `s` between occurrences of `sep`. There is always at least
/// one piece, and a piece may be empty.
pub open spec fn fields(s: Seq<char>, sep: char) -> Seq<Seq<char>>
    decreases s.len(),
{
    let e = first_index(s, sep) as int;
    if e < s.len() {
        seq![s.take(e)] + fields(s.skip(e + 1), sep)
    } else {
        seq![s]
    }
}

/// No field holds a separator.
pub proof fn lemma_fields_hold_no_separator(s: Seq<char>, sep: char, k: int, i: int)
    requires
        0 <= k < fields(s, sep).len(),
        0 <= i < fields(s, sep)[k].len(),
    ensures
        fields(s, sep)[k][i] != sep,
    decreases s.len(),
{
    lemma_first_index(s, sep);
    let e = first_index(s, sep) as int;
    if e < s.len() {
        if k > 0 {
            let rest = s.skip(e + 1);
            assert(fields(s, sep)[k] == fields(rest, sep)[k - 1]);
            lemma_fields_hold_no_separator(rest, sep, k - 1, i);
        }
    }
}

/// Computes [`fields`].
pub fn split_fields(s: &[char], sep: char) -> (out: Vec<Vec<char>>)
    ensures
        rows(out@) == fields(s@, sep),
{
    let mut out: Vec<Vec<char>> = Vec::new();
    let mut pos: usize = 0;
    assert(s@.skip(0) == s@);
    assert(rows(out@) + fields(s@, sep) == fields(s@, sep));
    let mut e = find_char(s, pos, sep);
    while e < s.len()
        invariant
            pos <= e <= s.len(),
            e == pos + first_index(s@.skip(pos as int), sep),
            fields(s@, sep) == rows(out@) + fields(s@.skip(pos as int), sep),
        decreases s.len() - pos,
    {
        let ghost tail = s@.skip(pos as int);
        let ghost before = rows(out@);
        let piece = copy_range(s, pos, e);
        proof {
            assert(tail.take(e - pos) == s@.subrange(pos as int, e as int));
            assert(tail.skip(e - pos + 1) == s@.skip(e + 1));
            assert(rows(out@.push(piece)) == before.push(piece@));
            assert(before + (seq![piece@] + fields(s@.skip(e + 1), sep)) == before.push(piece@)
                + fields(s@.skip(e + 1), sep));
        }
        out.push(piece);
        pos = e + 1;
        e = find_char(s, pos, sep);
    }
    let ghost before = rows(out@);
    let piece = copy_range(s, pos, s.len());
    proof {
        assert(s@.subrange(pos as int, s@.len() as int) == s@.skip(pos as int));
        assert(rows(out@.push(piece)) == before.push(piece@));
        assert(before + seq![piece@] == before.push(piece@));
    }
    out.push(piece);
    out
}

/// Index of the first occurrence of `needle` in `s`.
pub open spec fn find(s: Seq<char>, needle: Seq<char>) -> Option<nat>
    decreases s.len(),
{
    if starts_with(s, needle) {
        Some(0)
    } else if s.len() == 0 {
        None
    } else {
        match find(s.drop_first(), needle) {
            Some(i) => Some(i + 1),
            None => None,
        }
    }
}

/// Whether `needle` occurs in `s`.
pub open spec fn contains(s: Seq<char>, needle: Seq<char>) -> bool {
    find(s, needle) is Some
}

/// An occurrence that [`find`] reports lies within `s`.
pub proof fn lemma_find_within(s: Seq<char>, needle: Seq<char>)
    ensures
        find(s, needle) matches Some(i) ==> i + needle.len() <= s.len(),
    decreases s.len(),
{
    if starts_with(s, needle) {
    } else if s.len() == 0 {
    } else {
        lemma_find_within(s.drop_first(), needle);
    }
}

/// Index of the first occurrence of `needle` at or after `from`.
pub fn find_from(s: &[char], from: usize, needle: &[char]) -> (r: Option<usize>)
    requires
        from <= s.len(),
    ensures
        match find(s@.skip(from as int), needle@) {
            Some(i) => r == Some((from + i) as usize) && from + i + needle@.len() <= s@.len(),
            None => r is None,
        },
{
    let mut k: usize = from;
    loop
        invariant
            from <= k <= s.len(),
            match find(s@.skip(k as int), needle@) {
                Some(i) => find(s@.skip(from as int), needle@) == Some((k - from + i) as nat),
                None => find(s@.skip(from as int), needle@) is None,
            },
        decreases s.len() - k,
    {
        if occurs_at(s, k, needle) {
            proof {
                lemma_find_within(s@.skip(from as int), needle@);
            }
            return Some(k);
        }
        if k == s.len() {
            return None;
        }
        assert(s@.skip(k as int).drop_first() == s@.skip(k + 1));
        k += 1;
    }
}

/// Decides [`contains`].
pub fn has_substring(s: &[char], needle: &[char]) -> (r: bool)
    ensures
        r == contains(s@, needle@),
{
    assert(s@.skip(0) == s@);
    find_from(s, 0, needle).is_some()
}

/// The pieces of `s` between occurrences of the non-empty text `sep`, taken
/// from the left. There is always at least one piece.
pub open spec fn split_on(s: Seq<char>, sep: Seq<char>) -> Seq<Seq<char>>
    decreases s.len(),
{
    match find(s, sep) {
        Some(i) if sep.len() > 0 => {
            proof {
                lemma_find_within(s, sep);
            }
            seq![s.take(i as int)] + split_on(s.skip((i + sep.len()) as int), sep)
        },
        _ => seq![s],
    }
}

/// Computes [`split_on`].
pub fn split_text(s: &[char], sep: &[char]) -> (out: Vec<Vec<char>>)
    requires
        sep@.len() > 0,
    ensures
        rows(out@) == split_on(s@, sep@),
{
    let mut out: Vec<Vec<char>> = Vec::new();
    let mut pos: usize = 0;
    assert(s@.skip(0) == s@);
    assert(rows(out@) + split_on(s@, sep@) == split_on(s@, sep@));
    let mut hit = find_from(s, pos, sep);
    while hit.is_some()
        invariant
            pos <= s.len(),
            sep@.len() > 0,
            match find(s@.skip(pos as int), sep@) {
                Some(i) => hit == Some((pos + i) as usize) && pos + i + sep@.len() <= s@.len(),
                None => hit is None,
            },
            split_on(s@, sep@) == rows(out@) + split_on(s@.skip(pos as int), sep@),
        decreases s.len() - pos,
    {
        let at = hit.unwrap();
        let ghost tail = s@.skip(pos as int);
        let ghost before = rows(out@);
        let piece = copy_range(s, pos, at);
        let next = at + sep.len();
        proof {
            assert(tail.take(at - pos) == s@.subrange(pos as int, at as int));
            assert(tail.skip(at - pos + sep@.len()) == s@.skip(next as int));
            assert(rows(out@.push(piece)) == before.push(piece@));
            assert(before + (seq![piece@] + split_on(s@.skip(next as int), sep@)) == before.push(
                piece@,
            ) + split_on(s@.skip(next as int), sep@));
        }
        out.push(piece);
        pos = next;
        hit = find_from(s, pos, sep);
    }
    let ghost before = rows(out@);
    let piece = copy_range(s, pos, s.len());
    proof {
        assert(s@.subrange(pos as int, s@.len() as int) == s@.skip(pos as int));
        assert(rows(out@.push(piece)) == before.push(piece@));
        assert(before + seq![piece@] == before.push(piece@));
    }
    out.push(piece);
    out
}

/// `s` without the characters `a` and `b`.
pub open spec fn without(s: Seq<char>, a: char, b: char) -> Seq<char>
    decreases s.len(),
{
    if s.len() == 0 {
        s
    } else if s.last() == a || s.last() == b {
        without(s.drop_last(), a, b)
    } else {
        without(s.drop_last(), a, b).push(s.last())
    }
}

/// Computes [`without`].
pub fn removed(s: &[char], a: char, b: char) -> (v: Vec<char>)
    ensures
        v@ == without(s@, a, b),
{
    let mut v: Vec<char> = Vec::new();
    let mut i: usize = 0;
    while i < s.len()
        invariant
            i <= s.len(),
            v@ == without(s@.take(i as int), a, b),
        decreases s.len() - i,
    {
        assert(s@.take(i + 1).drop_last() == s@.take(i as int));
        if s[i] != a && s[i] != b {
            v.push(s[i]);
        }
        i += 1;
    }
    assert(s@.take(s@.len() as int) == s@);
    v
}

/// The texts of `parts`, with a line feed between each two neighbours.
pub open spec fn join_lines(parts: Seq<Seq<char>>) -> Seq<char>
    decreases parts.len(),
{
    if parts.len() == 0 {
        Seq::empty()
    } else if parts.len() == 1 {
        parts[0]
    } else {
        join_lines(parts.drop_last()) + seq!['\n'] + parts.last()
    }
}

/// Computes [`join_lines`].
pub fn joined_lines(parts: &Vec<Vec<char>>) -> (v: Vec<char>)
    ensures
        v@ == join_lines(rows(parts@)),
{
    let mut v: Vec<char> = Vec::new();
    let mut i: usize = 0;
    while i < parts.len()
        invariant
            i <= parts.len(),
            v@ == join_lines(rows(parts@).take(i as int)),
        decreases parts.len() - i,
    {
        let ghost before = v@;
        assert(rows(parts@).take(i + 1).drop_last() == rows(parts@).take(i as int));
        if i > 0 {
            v.push('\n');
        }
        let part = &parts[i];
        let mut j: usize = 0;
        while j < part.len()
            invariant
                j <= part.len(),
                v@ == (if i > 0 {
                    before + seq!['\n']
                } else {
                    before
                }) + part@.take(j as int),
            decreases part.len() - j,
        {
            v.push(part[j]);
            j += 1;
        }
        assert(part@.take(part@.len() as int) == part@);
        assert(rows(parts@).take(i + 1).last() == part@);
        i += 1;
    }
    assert(rows(parts@).take(parts@.len() as int) == rows(parts@));
    v
}

} // verus!
