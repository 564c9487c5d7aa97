//! Change detection: a source's last fingerprint, and whether a new one
//! differs from it.

use vstd::prelude::*;

verus! {

/// A value by which two observations of a source are told apart. Two
/// observations count as the same when their views are equal.
pub trait Fingerprint: View + Sized {
    /// Whether `self` and `other` have the same view.
    fn same(&self, other: &Self) -> (r: bool)
        ensures
            r == (self@ == other@),
    ;
}

impl Fingerprint for bool {
    fn same(&self, other: &Self) -> (r: bool) {
        *self == *other
    }
}

impl Fingerprint for u8 {
    fn same(&self, other: &Self) -> (r: bool) {
        *self == *other
    }
}

impl Fingerprint for u64 {
    fn same(&self, other: &Self) -> (r: bool) {
        *self == *other
    }
}

impl Fingerprint for String {
    fn same(&self, other: &Self) -> (r: bool) {
        *self == *other
    }
}

/// Whether a reading with view `reading` is a change for a source whose last
/// fingerprint has view `last`. The first reading of a source always is.
pub open spec fn differs<V>(last: Option<V>, reading: V) -> bool {
    last != Some(reading)
}

/// For readings observed one after another, starting with `last` as the
/// remembered fingerprint: which of them are reported as changes.
pub open spec fn reported<V>(last: Option<V>, readings: Seq<V>) -> Seq<bool>
    decreases readings.len(),
{
    if readings.len() == 0 {
        Seq::empty()
    } else {
        seq![differs(last, readings[0])] + reported(Some(readings[0]), readings.drop_first())
    }
}

/// How many of `flags` are set.
pub open spec fn count_set(flags: Seq<bool>) -> nat
    decreases flags.len(),
{
    if flags.len() == 0 {
        0
    } else {
        count_set(flags.drop_last()) + if flags.last() {
            1nat
        } else {
            0nat
        }
    }
}

/// The per-source cache of the last fingerprint.
pub struct ChangeDetector<T: Fingerprint> {
    last: Option<T>,
}

impl<T: Fingerprint> ChangeDetector<T> {
    /// The view of the remembered fingerprint, if there is one.
    pub closed spec fn last(&self) -> Option<T::V> {
        match self.last {
            Some(f) => Some(f@),
            None => None,
        }
    }

    /// A detector that has seen nothing yet.
    pub fn new() -> (d: Self)
        ensures
            d.last() is None,
    {
        ChangeDetector { last: None }
    }

    /// Whether `reading` would be reported as a change.
    pub fn would_report(&self, reading: &T) -> (r: bool)
        ensures
            r == differs(self.last(), reading@),
    {
        match &self.last {
            Some(f) => !f.same(reading),
            None => true,
        }
    }

    /// Takes a new reading: tells whether it differs from the remembered
    /// fingerprint, and remembers it.
    pub fn observe(&mut self, reading: T) -> (changed: bool)
        ensures
            changed == differs(old(self).last(), reading@),
            final(self).last() == Some(reading@),
    {
        let changed = self.would_report(&reading);
        if changed {
            self.last = Some(reading);
        }
        changed
    }

    /// Forgets the remembered fingerprint.
    pub fn reset(&mut self)
        ensures
            final(self).last() is None,
    {
        self.last = None;
    }
}

/// `n` times the value `v`.
pub open spec fn repeat<V>(v: V, n: nat) -> Seq<V> {
    Seq::new(n, |i: int| v)
}

/// Idempotence: where the same reading comes `n` times in a row, only the
/// first can be reported, and it is reported exactly when it differs from
/// what was remembered before.
pub proof fn lemma_repeats_reported_at_most_once<V>(last: Option<V>, v: V, n: nat)
    ensures
        reported(last, repeat(v, n)).len() == n,
        n > 0 ==> reported(last, repeat(v, n))[0] == differs(last, v),
        forall|i: int| 0 < i < n ==> !(#[trigger] reported(last, repeat(v, n))[i]),
    decreases n,
{
    if n > 0 {
        let rest = repeat(v, n).drop_first();
        assert(rest == repeat(v, (n - 1) as nat));
        lemma_repeats_reported_at_most_once(Some(v), v, (n - 1) as nat);
        let tail = reported(Some(v), rest);
        assert forall|i: int| 0 < i < n implies !(#[trigger] reported(last, repeat(v, n))[i]) by {
            assert(reported(last, repeat(v, n))[i] == tail[i - 1]);
            if i - 1 == 0 {
                assert(tail[0] == differs(Some(v), v));
            }
        }
    }
}

/// Flags of which only the first can be set count as many as the first says.
proof fn lemma_count_first_only(flags: Seq<bool>)
    requires
        forall|i: int| 0 < i < flags.len() ==> !(#[trigger] flags[i]),
    ensures
        count_set(flags) == (if flags.len() > 0 && flags[0] {
            1nat
        } else {
            0nat
        }),
    decreases flags.len(),
{
    if flags.len() > 0 {
        let head = flags.drop_last();
        assert forall|i: int| 0 < i < head.len() implies !(#[trigger] head[i]) by {
            assert(head[i] == flags[i]);
        }
        lemma_count_first_only(head);
        if flags.len() > 1 {
            assert(head[0] == flags[0]);
            assert(!flags[flags.len() - 1]);
        }
    }
}

/// Idempotence for a source that has not been observed before: the same
/// reading, repeated `n >= 1` times, is reported exactly once, whatever `n`.
pub proof fn lemma_repeats_reported_once<V>(v: V, n: nat)
    requires
        n >= 1,
    ensures
        reported(None, repeat(v, n))[0],
        count_set(reported(None, repeat(v, n))) == 1,
{
    lemma_repeats_reported_at_most_once(None, v, n);
    lemma_count_first_only(reported(None, repeat(v, n)));
}

} // verus!
