//! The error patterns of an encoding analyzer: how often each kind of
//! encoding error was seen, and the most frequent ones.

use vstd::prelude::*;

use std::time::Instant;

use super::EncodingError;
use crate::clock::instant_now;

verus! {

/// The kind of an encoding error: the position of its variant.
pub open spec fn error_kind(e: EncodingError) -> u8 {
    match e {
        EncodingError::BufferOverflow => 0,
        EncodingError::BufferUnderflow => 1,
        EncodingError::InvalidTag => 2,
        EncodingError::InvalidLength => 3,
        EncodingError::UnexpectedEndOfData => 4,
        EncodingError::InvalidFormat(_) => 5,
        EncodingError::ValueOutOfRange => 6,
    }
}

/// The abstract content of an error: its kind and, for `InvalidFormat`,
/// its text.
pub open spec fn error_view(e: EncodingError) -> (u8, Seq<char>) {
    (error_kind(e), match e {
        EncodingError::InvalidFormat(s) => s@,
        _ => Seq::empty(),
    })
}

/// The kind of an encoding error.
pub fn error_kind_of(e: &EncodingError) -> (r: u8)
    ensures
        r == error_kind(*e),
{
    match e {
        EncodingError::BufferOverflow => 0,
        EncodingError::BufferUnderflow => 1,
        EncodingError::InvalidTag => 2,
        EncodingError::InvalidLength => 3,
        EncodingError::UnexpectedEndOfData => 4,
        EncodingError::InvalidFormat(_) => 5,
        EncodingError::ValueOutOfRange => 6,
    }
}

/// A copy of an encoding error.
pub fn copy_error(e: &EncodingError) -> (r: EncodingError)
    ensures
        error_view(r) == error_view(*e),
{
    match e {
        EncodingError::BufferOverflow => EncodingError::BufferOverflow,
        EncodingError::BufferUnderflow => EncodingError::BufferUnderflow,
        EncodingError::InvalidTag => EncodingError::InvalidTag,
        EncodingError::InvalidLength => EncodingError::InvalidLength,
        EncodingError::UnexpectedEndOfData => EncodingError::UnexpectedEndOfData,
        EncodingError::InvalidFormat(s) => {
            let t = s.clone();
            EncodingError::InvalidFormat(t)
        },
        EncodingError::ValueOutOfRange => EncodingError::ValueOutOfRange,
    }
}

/// One kind of error seen: the first error of that kind, how often the
/// kind was seen, and when it was last seen.
#[derive(Debug)]
struct ErrorPattern {
    error_type: EncodingError,
    count: u32,
    last_seen: Instant,
}

/// The abstract content of a pattern: the error's view and the count.
pub type PatternView = ((u8, Seq<char>), u32);

impl View for ErrorPattern {
    type V = PatternView;

    closed spec fn view(&self) -> PatternView {
        (error_view(self.error_type), self.count)
    }
}

/// The views of a sequence of patterns.
spec fn pattern_views(s: Seq<ErrorPattern>) -> Seq<PatternView> {
    s.map_values(|p: ErrorPattern| p@)
}

/// Whether pattern `i` of `s` is the first of kind `k`.
pub open spec fn first_of_kind(s: Seq<PatternView>, k: u8, i: int) -> bool {
    &&& 0 <= i < s.len()
    &&& s[i].0.0 == k
    &&& forall|j: int| 0 <= j < i ==> s[j].0.0 != k
}

/// Whether no pattern of `s` has kind `k`.
pub open spec fn kind_absent(s: Seq<PatternView>, k: u8) -> bool {
    forall|j: int| 0 <= j < s.len() ==> s[j].0.0 != k
}

/// `s` with `e` put after the last pattern counted at least as often: one
/// step of a stable sort by count, most frequent first.
pub open spec fn insert_by_frequency(s: Seq<PatternView>, e: PatternView) -> Seq<PatternView>
    decreases s.len(),
{
    if s.len() == 0 {
        seq![e]
    } else if s.last().1 >= e.1 {
        s.push(e)
    } else {
        insert_by_frequency(s.drop_last(), e).push(s.last())
    }
}

/// The patterns stably sorted by count, most frequent first.
pub open spec fn by_frequency(s: Seq<PatternView>) -> Seq<PatternView>
    decreases s.len(),
{
    if s.len() == 0 {
        s
    } else {
        insert_by_frequency(by_frequency(s.drop_last()), s.last())
    }
}

/// `insert_by_frequency` puts `e` at `j` where the patterns before `j`
/// count at least as much as `e` (at `j - 1`) and those from `j` on less.
proof fn lemma_insert_by_frequency_at(s: Seq<PatternView>, e: PatternView, j: int)
    requires
        0 <= j <= s.len(),
        j == 0 || s[j - 1].1 >= e.1,
        forall|k: int| j <= k < s.len() ==> s[k].1 < e.1,
    ensures
        insert_by_frequency(s, e) == s.take(j) + seq![e] + s.skip(j),
    decreases s.len(),
{
    if s.len() == 0 {
        assert(s.take(j) + seq![e] + s.skip(j) =~= seq![e]);
    } else if s.last().1 >= e.1 {
        assert(j == s.len());
        assert(s.take(j) + seq![e] + s.skip(j) =~= s.push(e));
    } else {
        lemma_insert_by_frequency_at(s.drop_last(), e, j);
        assert(s.drop_last().take(j) + seq![e] + s.drop_last().skip(j) + seq![s.last()] =~= s.take(j) + seq![e]
            + s.skip(j));
    }
}

/// Sorting keeps the number of patterns.
proof fn lemma_by_frequency_len(s: Seq<PatternView>)
    ensures
        by_frequency(s).len() == s.len(),
    decreases s.len(),
{
    if s.len() > 0 {
        lemma_by_frequency_len(s.drop_last());
        lemma_insert_by_frequency_len(by_frequency(s.drop_last()), s.last());
    }
}

/// Inserting adds one pattern.
proof fn lemma_insert_by_frequency_len(s: Seq<PatternView>, e: PatternView)
    ensures
        insert_by_frequency(s, e).len() == s.len() + 1,
    decreases s.len(),
{
    if s.len() > 0 && s.last().1 < e.1 {
        lemma_insert_by_frequency_len(s.drop_last(), e);
    }
}

/// The views of the pairs `get_top_errors` returns.
pub open spec fn top_views(s: Seq<(EncodingError, u32)>) -> Seq<PatternView> {
    s.map_values(|p: (EncodingError, u32)| (error_view(p.0), p.1))
}

/// The kinds of encoding error seen, each with how often it was seen.
#[derive(Debug)]
pub struct ErrorPatterns {
    patterns: Vec<ErrorPattern>,
}

impl ErrorPatterns {
    /// The patterns in the order their kinds were first seen.
    pub closed spec fn spec_patterns(&self) -> Seq<PatternView> {
        pattern_views(self.patterns@)
    }

    /// No errors seen.
    pub fn new() -> (r: Self)
        ensures
            r.spec_patterns() == Seq::<PatternView>::empty(),
    {
        let r = ErrorPatterns { patterns: Vec::new() };
        assert(r.spec_patterns() =~= Seq::<PatternView>::empty());
        r
    }

    /// Count one more error: the pattern of its kind counts one more (and
    /// is marked seen now); a kind not seen before starts a pattern of
    /// count 1 at the end.
    pub fn record_error(&mut self, error: EncodingError)
        requires
            forall|i: int| #![trigger first_of_kind(old(self).spec_patterns(), error_kind(error), i)]
                first_of_kind(old(self).spec_patterns(), error_kind(error), i) ==> old(self).spec_patterns()[i].1
                    < u32::MAX,
        ensures
            forall|i: int| #![trigger first_of_kind(old(self).spec_patterns(), error_kind(error), i)]
                first_of_kind(old(self).spec_patterns(), error_kind(error), i) ==> final(self).spec_patterns()
                    == old(self).spec_patterns().update(
                    i,
                    (old(self).spec_patterns()[i].0, (old(self).spec_patterns()[i].1 + 1) as u32),
                ),
            kind_absent(old(self).spec_patterns(), error_kind(error)) ==> final(self).spec_patterns()
                == old(self).spec_patterns().push((error_view(error), 1u32)),
    {
        let ghost s = pattern_views(self.patterns@);
        let kind = error_kind_of(&error);
        assert forall|k: int| #![trigger first_of_kind(s, kind, k)] first_of_kind(s, kind, k) implies s[k].1 < u32::MAX by {
            assert(first_of_kind(old(self).spec_patterns(), error_kind(error), k));
        }
        let mut i: usize = 0;
        while i < self.patterns.len()
            invariant
                self.patterns@ == old(self).patterns@,
                s == pattern_views(self.patterns@),
                kind == error_kind(error),
                s == old(self).spec_patterns(),
                forall|k: int| #![trigger first_of_kind(s, kind, k)] first_of_kind(s, kind, k) ==> s[k].1 < u32::MAX,
                i <= self.patterns@.len(),
                forall|j: int| 0 <= j < i ==> s[j].0.0 != kind,
            decreases self.patterns@.len() - i,
        {
            if error_kind_of(&self.patterns[i].error_type) == kind {
                proof {
                    assert(first_of_kind(s, kind, i as int));
                    assert forall|k: int| first_of_kind(s, kind, k) implies k == i as int by {
                        if k > i as int {
                            assert(s[i as int].0.0 == kind);
                        }
                    }
                }
                let old_pattern = self.patterns.remove(i);
                let now = instant_now();
                let ghost ov = old_pattern@;
                assert(ov == s[i as int]);
                let updated = ErrorPattern {
                    error_type: old_pattern.error_type,
                    count: old_pattern.count + 1,
                    last_seen: now,
                };
                self.patterns.insert(i, updated);
                assert(pattern_views(self.patterns@) =~= s.update(i as int, (ov.0, (ov.1 + 1) as u32)));
                return;
            }
            i = i + 1;
        }
        assert(kind_absent(s, kind));
        assert(forall|k: int| !first_of_kind(s, kind, k));
        let ghost ev = error_view(error);
        let now = instant_now();
        self.patterns.push(ErrorPattern { error_type: error, count: 1, last_seen: now });
        assert(pattern_views(self.patterns@) =~= s.push((ev, 1u32)));
    }

    /// The `limit` most frequent kinds of error with their counts: the
    /// patterns stably sorted by count, most frequent first, cut to `limit`.
    pub fn get_top_errors(&self, limit: usize) -> (r: Vec<(EncodingError, u32)>)
        ensures
            top_views(r@) == by_frequency(self.spec_patterns()).take(
                if limit < self.spec_patterns().len() { limit as int } else { self.spec_patterns().len() as int },
            ),
    {
        let ghost s = pattern_views(self.patterns@);
        let mut sorted: Vec<(EncodingError, u32)> = Vec::new();
        let mut i: usize = 0;
        while i < self.patterns.len()
            invariant
                s == pattern_views(self.patterns@),
                i <= self.patterns@.len(),
                top_views(sorted@) == by_frequency(s.take(i as int)),
            decreases self.patterns@.len() - i,
        {
            let count = self.patterns[i].count;
            let e = copy_error(&self.patterns[i].error_type);
            let ghost ev = (error_view(e), count);
            let ghost before = top_views(sorted@);
            proof {
                assert(s.take(i as int + 1).drop_last() =~= s.take(i as int));
                assert(s.take(i as int + 1).last() == s[i as int]);
                assert(s[i as int] == ev);
            }
            let mut j: usize = sorted.len();
            while j > 0 && sorted[j - 1].1 < count
                invariant
                    j <= sorted@.len(),
                    top_views(sorted@) == before,
                    forall|k: int| j <= k < before.len() ==> before[k].1 < count,
                decreases j,
            {
                j = j - 1;
            }
            proof {
                assert(j > 0 ==> before[j - 1].1 >= count);
                lemma_insert_by_frequency_at(before, ev, j as int);
            }
            sorted.insert(j, (e, count));
            assert(top_views(sorted@) =~= before.take(j as int) + seq![ev] + before.skip(j as int));
            i = i + 1;
        }
        assert(s.take(i as int) =~= s);
        proof {
            lemma_by_frequency_len(s);
        }
        sorted.truncate(limit);
        assert(top_views(sorted@) =~= by_frequency(s).take(
            if limit < s.len() { limit as int } else { s.len() as int },
        ));
        sorted
    }

    /// How often errors of `error`'s kind were seen (0 if never).
    pub fn count_for(&self, error: &EncodingError) -> (r: u32)
        ensures
            forall|i: int| #![trigger first_of_kind(self.spec_patterns(), error_kind(*error), i)]
                first_of_kind(self.spec_patterns(), error_kind(*error), i) ==> r == self.spec_patterns()[i].1,
            kind_absent(self.spec_patterns(), error_kind(*error)) ==> r == 0,
    {
        let ghost s = pattern_views(self.patterns@);
        let kind = error_kind_of(error);
        let mut i: usize = 0;
        while i < self.patterns.len()
            invariant
                s == pattern_views(self.patterns@),
                kind == error_kind(*error),
                i <= self.patterns@.len(),
                forall|j: int| 0 <= j < i ==> s[j].0.0 != kind,
            decreases self.patterns@.len() - i,
        {
            if error_kind_of(&self.patterns[i].error_type) == kind {
                proof {
                    assert(first_of_kind(s, kind, i as int));
                    assert forall|k: int| first_of_kind(s, kind, k) implies k == i as int by {
                        if k > i as int {
                            assert(s[i as int].0.0 == kind);
                        }
                    }
                }
                return self.patterns[i].count;
            }
            i = i + 1;
        }
        assert(forall|k: int| !first_of_kind(s, kind, k));
        0
    }

    /// Forget every error seen.
    pub fn clear(&mut self)
        ensures
            final(self).spec_patterns() == Seq::<PatternView>::empty(),
    {
        self.patterns.clear();
        assert(pattern_views(self.patterns@) =~= Seq::<PatternView>::empty());
    }
}

/// The most frequent kinds come first: in the sorted patterns no pattern
/// is counted more often than one before it.
pub proof fn lemma_top_errors_most_frequent_first(s: Seq<PatternView>)
    ensures
        forall|i: int, j: int| 0 <= i < j < by_frequency(s).len() ==> by_frequency(s)[i].1 >= by_frequency(s)[j].1,
    decreases s.len(),
{
    if s.len() > 0 {
        lemma_top_errors_most_frequent_first(s.drop_last());
        lemma_insert_keeps_order(by_frequency(s.drop_last()), s.last());
    }
}

/// Inserting into patterns sorted most frequent first keeps them so.
proof fn lemma_insert_keeps_order(s: Seq<PatternView>, e: PatternView)
    requires
        forall|i: int, j: int| 0 <= i < j < s.len() ==> s[i].1 >= s[j].1,
    ensures
        forall|i: int, j: int| 0 <= i < j < insert_by_frequency(s, e).len() ==> insert_by_frequency(s, e)[i].1
            >= insert_by_frequency(s, e)[j].1,
        insert_by_frequency(s, e).len() == s.len() + 1,
        forall|i: int| 0 <= i < insert_by_frequency(s, e).len() ==> (insert_by_frequency(s, e)[i] == e
            || s.contains(insert_by_frequency(s, e)[i])),
    decreases s.len(),
{
    lemma_insert_by_frequency_len(s, e);
    if s.len() > 0 && s.last().1 < e.1 {
        let p = s.drop_last();
        assert forall|i: int, j: int| 0 <= i < j < p.len() implies p[i].1 >= p[j].1 by {
            assert(p[i] == s[i] && p[j] == s[j]);
        }
        lemma_insert_keeps_order(p, e);
        let q = insert_by_frequency(p, e);
        assert forall|i: int| 0 <= i < q.len() implies q[i].1 >= s.last().1 by {
            if q[i] != e {
                let k = choose|k: int| 0 <= k < p.len() && p[k] == q[i];
                assert(s[k] == p[k]);
            }
        }
        assert forall|i: int| 0 <= i < q.push(s.last()).len() implies (q.push(s.last())[i] == e || s.contains(
            q.push(s.last())[i],
        )) by {
            if i < q.len() && q[i] != e {
                let k = choose|k: int| 0 <= k < p.len() && p[k] == q[i];
                assert(s[k] == p[k]);
            } else if i == q.len() {
                assert(s[s.len() - 1] == s.last());
            }
        }
    } else if s.len() > 0 {
        assert forall|i: int| 0 <= i < s.push(e).len() implies (s.push(e)[i] == e || s.contains(s.push(e)[i])) by {
            if i < s.len() {
                assert(s.push(e)[i] == s[i]);
            }
        }
    }
}

} // verus!
