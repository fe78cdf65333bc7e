//! Invoke ids, transactions and the segmentation of long messages.

use vstd::prelude::*;

use core::time::Duration;
use std::time::Instant;

use super::ApplicationError;
use crate::clock::{duration_exceeds, duration_from_secs, elapsed_since, instant_before, instant_now, seconds_span};
use crate::encoding::append_bytes;

verus! {

/// Transaction states for confirmed services.
#[derive(Debug, Clone, Copy, PartialEq, Eq, Structural)]
pub enum TransactionState {
    /// Waiting for response
    AwaitConfirmation,
    /// Waiting for segment
    AwaitSegment,
    /// Segmented request in progress
    SegmentedRequest,
    /// Segmented response in progress
    SegmentedResponse,
    /// Transaction complete
    Complete,
}

/// Transaction state for a confirmed service.
#[derive(Debug, Clone, Copy)]
pub struct Transaction {
    /// Invoke ID
    pub invoke_id: u8,
    /// Service being invoked
    pub service: u8,
    /// Current state
    pub state: TransactionState,
    /// Timeout for this transaction
    pub timeout: core::time::Duration,
    /// Retry count
    pub retries: u8,
}

/// The invoke id `off` places after `start`, wrapping at 256.
pub open spec fn id_after(start: u8, off: int) -> u8 {
    ((start + off) % 256) as u8
}

/// `s` without any `x`.
pub open spec fn without_id(s: Seq<u8>, x: u8) -> Seq<u8> {
    s.filter(other_id(x))
}

/// The test for an id other than `x`.
pub open spec fn other_id(x: u8) -> spec_fn(u8) -> bool {
    |y: u8| y != x
}

/// Hands out invoke ids that are not in use.
#[derive(Debug)]
pub struct InvokeIdManager {
    next_id: u8,
    active_ids: Vec<u8>,
}

impl InvokeIdManager {
    /// The ids in use.
    pub closed spec fn active(&self) -> Seq<u8> {
        self.active_ids@
    }

    /// Where the search for a free id starts.
    pub closed spec fn next(&self) -> u8 {
        self.next_id
    }

    /// No ids in use; the search starts at 0.
    pub fn new() -> (r: Self)
        ensures
            r.active().len() == 0,
            r.next() == 0,
    {
        InvokeIdManager { next_id: 0, active_ids: Vec::new() }
    }

    /// The first id from the search start on (wrapping at 256) that is not
    /// in use, which is then in use, the search going on after it; `None`
    /// if all 256 are in use.
    pub fn next_id(&mut self) -> (r: Option<u8>)
        ensures
            match r {
                Some(id) => (exists|off: int| 0 <= off < 256 && id == id_after(old(self).next(), off)
                    && forall|j: int| 0 <= j < off ==> old(self).active().contains(#[trigger] id_after(old(self).next(), j)))
                    && !old(self).active().contains(id)
                    && final(self).active() == old(self).active().push(id)
                    && final(self).next() == id_after(id, 1),
                None => (forall|j: int| 0 <= j < 256 ==> old(self).active().contains(#[trigger] id_after(old(self).next(), j)))
                    && final(self).active() == old(self).active() && final(self).next() == old(self).next(),
            },
    {
        let start = self.next_id;
        let ghost mut off: int = 0;
        loop
            invariant
                0 <= off < 256,
                self.next_id == id_after(start, off),
                start == old(self).next_id,
                self.active_ids@ == old(self).active_ids@,
                forall|j: int| 0 <= j < off ==> self.active_ids@.contains(#[trigger] id_after(start, j)),
            decreases 256 - off,
        {
            let candidate = self.next_id;
            let mut taken = false;
            let mut i: usize = 0;
            while i < self.active_ids.len()
                invariant
                    i <= self.active_ids@.len(),
                    taken <==> exists|k: int| 0 <= k < i && self.active_ids@[k] == candidate,
                decreases self.active_ids@.len() - i,
            {
                if self.active_ids[i] == candidate {
                    taken = true;
                }
                i = i + 1;
            }
            if !taken {
                proof {
                    assert(!old(self).active_ids@.contains(candidate));
                    assert(old(self).next() == start);
                    assert(0 <= off < 256 && candidate == id_after(old(self).next(), off)
                        && forall|j: int| 0 <= j < off ==> old(self).active().contains(#[trigger] id_after(old(self).next(), j)));
                }
                self.active_ids.push(candidate);
                self.next_id = if candidate == 255 { 0 } else { candidate + 1 };
                return Some(candidate);
            }
            proof {
                let k = choose|k: int| 0 <= k < self.active_ids@.len() && self.active_ids@[k] == candidate;
                assert(self.active_ids@.contains(id_after(start, off)));
            }
            self.next_id = if candidate == 255 { 0 } else { candidate + 1 };
            proof {
                off = off + 1;
                assert(self.next_id == id_after(start, off));
            }
            if self.next_id == start {
                return None;
            }
        }
    }

    /// Releases an id: it is no longer in use.
    pub fn release_id(&mut self, id: u8)
        ensures
            final(self).active() == without_id(old(self).active(), id),
            final(self).next() == old(self).next(),
    {
        let mut kept: Vec<u8> = Vec::new();
        let mut i: usize = 0;
        while i < self.active_ids.len()
            invariant
                i <= self.active_ids@.len(),
                self.active_ids@ == old(self).active_ids@,
                self.next_id == old(self).next_id,
                kept@ == without_id(self.active_ids@.subrange(0, i as int), id),
            decreases self.active_ids@.len() - i,
        {
            proof {
                let s = self.active_ids@;
                assert(s.subrange(0, i + 1) =~= s.subrange(0, i as int).push(s[i as int]));
                s.subrange(0, i as int).lemma_filter_push(s[i as int], other_id(id));
            }
            if self.active_ids[i] != id {
                kept.push(self.active_ids[i]);
            }
            i = i + 1;
        }
        assert(self.active_ids@.subrange(0, i as int) =~= self.active_ids@);
        self.active_ids = kept;
    }

    /// Whether an id is in use.
    pub fn is_active(&self, id: u8) -> (r: bool)
        ensures
            r <==> self.active().contains(id),
    {
        let mut i: usize = 0;
        while i < self.active_ids.len()
            invariant
                i <= self.active_ids@.len(),
                forall|k: int| 0 <= k < i ==> self.active_ids@[k] != id,
            decreases self.active_ids@.len() - i,
        {
            if self.active_ids[i] == id {
                return true;
            }
            i = i + 1;
        }
        false
    }
}

impl Default for InvokeIdManager {
    fn default() -> (r: Self)
        ensures
            r.active().len() == 0,
            r.next() == 0,
    {
        InvokeIdManager::new()
    }
}

/// A released id is not in use any more.
pub proof fn lemma_released_id_inactive(active: Seq<u8>, id: u8)
    ensures
        !without_id(active, id).contains(id),
{
    if without_id(active, id).contains(id) {
        let i = choose|i: int| 0 <= i < without_id(active, id).len() && without_id(active, id)[i] == id;
        active.lemma_filter_pred(other_id(id), i);
    }
}

/// Segmentation information for a segment of a long APDU.
#[derive(Debug, Clone, Copy, PartialEq, Eq, Structural)]
pub struct SegmentationInfo {
    /// More follows flag
    pub more_follows: bool,
    /// Segmented response accepted flag
    pub segmented_response_accepted: bool,
    /// Maximum segments accepted (0 = unspecified, 2-127)
    pub max_segments_accepted: u8,
    /// Maximum APDU length accepted
    pub max_apdu_length_accepted: u16,
    /// Sequence number (0-255)
    pub sequence_number: u8,
    /// Proposed window size (1-127)
    pub proposed_window_size: u8,
}

impl SegmentationInfo {
    /// Segmentation information with the given fields.
    pub fn new(
        more_follows: bool,
        segmented_response_accepted: bool,
        max_segments_accepted: u8,
        max_apdu_length_accepted: u16,
        sequence_number: u8,
        proposed_window_size: u8,
    ) -> (r: Self)
        ensures
            r == (SegmentationInfo {
                more_follows,
                segmented_response_accepted,
                max_segments_accepted,
                max_apdu_length_accepted,
                sequence_number,
                proposed_window_size,
            }),
    {
        SegmentationInfo {
            more_follows,
            segmented_response_accepted,
            max_segments_accepted,
            max_apdu_length_accepted,
            sequence_number,
            proposed_window_size,
        }
    }

    /// Whether this is the first segment (sequence number 0).
    pub fn is_first_segment(&self) -> (r: bool)
        ensures
            r <==> self.sequence_number == 0,
    {
        self.sequence_number == 0
    }

    /// Whether this is the last segment (no more follow).
    pub fn is_last_segment(&self) -> (r: bool)
        ensures
            r <==> !self.more_follows,
    {
        !self.more_follows
    }

    /// The largest segment: the maximum APDU length less 6 octets of
    /// header, or 0.
    pub fn max_segment_size(&self) -> (r: usize)
        ensures
            r == (if self.max_apdu_length_accepted >= 6 { self.max_apdu_length_accepted - 6 } else { 0 }),
    {
        if self.max_apdu_length_accepted >= 6 {
            (self.max_apdu_length_accepted - 6) as usize
        } else {
            0
        }
    }
}

/// The abstract content of received segments: sequence number and data.
pub type SegmentsView = Seq<(u8, Seq<u8>)>;

/// The views of received segments.
pub open spec fn segments_view(s: Seq<(u8, Vec<u8>)>) -> SegmentsView {
    s.map_values(|e: (u8, Vec<u8>)| (e.0, e.1@))
}

/// Whether segments are in strictly increasing order of sequence number.
pub open spec fn segments_sorted(s: SegmentsView) -> bool {
    forall|i: int, j: int| 0 <= i < j < s.len() ==> s[i].0 < s[j].0
}

/// Whether a segment with sequence number `k` was received.
pub open spec fn has_segment(s: SegmentsView, k: u8) -> bool {
    exists|i: int| 0 <= i < s.len() && s[i].0 == k
}

/// The data of the segments, one after another.
pub open spec fn joined(s: SegmentsView) -> Seq<u8>
    decreases s.len(),
{
    if s.len() == 0 {
        seq![]
    } else {
        joined(s.drop_last()) + s.last().1
    }
}

/// Whether the segments are all there: as many as the total, numbered from 0.
pub open spec fn segments_complete(total: Option<u8>, s: SegmentsView) -> bool {
    match total {
        Some(t) => s.len() == t && forall|i: int| 0 <= i < s.len() ==> s[i].0 == i,
        None => false,
    }
}

/// The sequence numbers below `t` not received, in order.
pub open spec fn missing_below(s: SegmentsView, t: nat) -> Seq<u8>
    decreases t,
{
    if t == 0 {
        seq![]
    } else {
        let rest = missing_below(s, (t - 1) as nat);
        if has_segment(s, (t - 1) as u8) {
            rest
        } else {
            rest.push((t - 1) as u8)
        }
    }
}

/// A buffer collecting the segments of one message.
#[derive(Debug)]
pub struct SegmentReassemblyBuffer {
    /// Invoke ID of the segmented message
    pub invoke_id: u8,
    /// Expected total segments (if known)
    pub total_segments: Option<u8>,
    /// Received segments (sequence number, data), in order
    pub segments: Vec<(u8, Vec<u8>)>,
    /// Maximum APDU length
    pub max_apdu_length: u16,
    /// When the last segment came in (or the buffer was made)
    pub last_activity: Instant,
}

/// The abstract content of a reassembly buffer.
pub type BufferView = (u8, Option<u8>, SegmentsView, u16);

impl View for SegmentReassemblyBuffer {
    type V = BufferView;

    open spec fn view(&self) -> BufferView {
        (self.invoke_id, self.total_segments, segments_view(self.segments@), self.max_apdu_length)
    }
}

/// The buffer after adding a segment: a last segment fixes the total; a
/// segment already there is ignored, a new one goes in its place in order.
pub open spec fn added(b: BufferView, seq: u8, data: Seq<u8>, is_last: bool) -> BufferView {
    let total = if is_last { Some((seq + 1) as u8) } else { b.1 };
    let segs = if has_segment(b.2, seq) {
        b.2
    } else {
        b.2.insert(insertion_point(b.2, seq), (seq, data))
    };
    (b.0, total, segs, b.3)
}

/// Where a segment numbered `seq` goes: after all lower numbers.
pub open spec fn insertion_point(s: SegmentsView, seq: u8) -> int
    decreases s.len(),
{
    if s.len() == 0 {
        0
    } else if s.last().0 < seq {
        s.len() as int
    } else {
        insertion_point(s.drop_last(), seq)
    }
}

proof fn lemma_insertion_point(s: SegmentsView, seq: u8)
    requires
        segments_sorted(s),
        !has_segment(s, seq),
    ensures
        0 <= insertion_point(s, seq) <= s.len(),
        forall|j: int| 0 <= j < insertion_point(s, seq) ==> s[j].0 < seq,
        forall|j: int| insertion_point(s, seq) <= j < s.len() ==> s[j].0 > seq,
    decreases s.len(),
{
    if s.len() > 0 && !(s.last().0 < seq) {
        let t = s.drop_last();
        assert(!has_segment(t, seq)) by {
            if has_segment(t, seq) {
                let i = choose|i: int| 0 <= i < t.len() && t[i].0 == seq;
                assert(s[i].0 == seq);
            }
        }
        assert(segments_sorted(t)) by {
            assert forall|i: int, j: int| 0 <= i < j < t.len() implies t[i].0 < t[j].0 by {
                assert(t[i] == s[i] && t[j] == s[j]);
            }
        }
        lemma_insertion_point(t, seq);
        assert(s.last().0 != seq) by {
            if s.last().0 == seq {
                assert(s[s.len() - 1].0 == seq);
            }
        }
        assert forall|j: int| 0 <= j < insertion_point(s, seq) implies s[j].0 < seq by {
            assert(t[j] == s[j]);
        }
        assert forall|j: int| insertion_point(s, seq) <= j < s.len() implies s[j].0 > seq by {
            if j < s.len() - 1 {
                assert(t[j] == s[j]);
            }
        }
    } else if s.len() > 0 {
        assert forall|j: int| 0 <= j < s.len() implies s[j].0 < seq by {
            if j < s.len() - 1 {
                assert(s[j].0 < s[s.len() - 1].0);
            }
        }
    }
}

impl SegmentReassemblyBuffer {
    /// Whether the segments are in strictly increasing order.
    pub open spec fn wf(&self) -> bool {
        segments_sorted(segments_view(self.segments@))
    }

    /// An empty buffer.
    pub fn new(invoke_id: u8, max_apdu_length: u16) -> (r: Self)
        ensures
            r@ == (invoke_id, None::<u8>, Seq::<(u8, Seq<u8>)>::empty(), max_apdu_length),
            r.wf(),
    {
        let r = SegmentReassemblyBuffer {
            invoke_id,
            total_segments: None,
            segments: Vec::new(),
            max_apdu_length,
            last_activity: instant_now(),
        };
        assert(segments_view(r.segments@) =~= Seq::<(u8, Seq<u8>)>::empty());
        r
    }

    /// Adds a segment; a last segment fixes the total, a segment already
    /// received is ignored, and segments stay in order.
    pub fn add_segment(&mut self, sequence_number: u8, data: Vec<u8>, is_last: bool) -> (r: Result<(), ApplicationError>)
        requires
            old(self).wf(),
            is_last ==> sequence_number < 255,
        ensures
            r is Ok,
            final(self).wf(),
            final(self)@ == added(old(self)@, sequence_number, data@, is_last),
    {
        self.last_activity = instant_now();
        if is_last {
            self.total_segments = Some(sequence_number + 1);
        }
        let ghost s = segments_view(self.segments@);
        let mut i: usize = 0;
        while i < self.segments.len()
            invariant
                s == segments_view(self.segments@),
                s == segments_view(old(self).segments@),
                segments_sorted(s),
                self.invoke_id == old(self).invoke_id,
                self.max_apdu_length == old(self).max_apdu_length,
                self.total_segments == (if is_last { Some((sequence_number + 1) as u8) } else { old(self).total_segments }),
                i <= s.len(),
                forall|j: int| 0 <= j < i ==> s[j].0 != sequence_number,
            decreases s.len() - i,
        {
            assert(s[i as int].0 == self.segments@[i as int].0);
            if self.segments[i].0 == sequence_number {
                assert(has_segment(s, sequence_number));
                return Ok(());
            }
            i = i + 1;
        }
        assert(!has_segment(s, sequence_number));
        proof {
            lemma_insertion_point(s, sequence_number);
        }
        let mut pos: usize = self.segments.len();
        while pos > 0 && self.segments[pos - 1].0 > sequence_number
            invariant
                s == segments_view(self.segments@),
                s == segments_view(old(self).segments@),
                segments_sorted(s),
                !has_segment(s, sequence_number),
                0 <= insertion_point(s, sequence_number) <= s.len(),
                forall|j: int| 0 <= j < insertion_point(s, sequence_number) ==> s[j].0 < sequence_number,
                forall|j: int| insertion_point(s, sequence_number) <= j < s.len() ==> s[j].0 > sequence_number,
                self.invoke_id == old(self).invoke_id,
                self.max_apdu_length == old(self).max_apdu_length,
                self.total_segments == (if is_last { Some((sequence_number + 1) as u8) } else { old(self).total_segments }),
                pos <= s.len(),
                forall|j: int| pos <= j < s.len() ==> s[j].0 > sequence_number,
            decreases pos,
        {
            assert(s[pos - 1].0 == self.segments@[pos - 1].0);
            pos = pos - 1;
        }
        proof {
            if pos > 0 {
                assert(s[pos - 1].0 == self.segments@[pos - 1].0);
            }
            assert(pos == insertion_point(s, sequence_number)) by {
                let ip = insertion_point(s, sequence_number);
                if ip < pos {
                    assert(s[pos - 1].0 < sequence_number);
                } else if ip > pos {
                    assert(s[pos as int].0 > sequence_number);
                }
            }
        }
        let ghost dv = data@;
        self.segments.insert(pos, (sequence_number, data));
        assert(segments_view(self.segments@) =~= s.insert(pos as int, (sequence_number, dv)));
        proof {
            let u = s.insert(pos as int, (sequence_number, dv));
            assert forall|a: int, b: int| 0 <= a < b < u.len() implies u[a].0 < u[b].0 by {
                if a < pos && b < pos {
                    assert(u[a] == s[a] && u[b] == s[b]);
                } else if a < pos && b == pos {
                    assert(u[a] == s[a]);
                } else if a < pos {
                    assert(u[a] == s[a] && u[b] == s[b - 1]);
                } else if a == pos {
                    assert(u[b] == s[b - 1]);
                } else {
                    assert(u[a] == s[a - 1] && u[b] == s[b - 1]);
                }
            }
        }
        Ok(())
    }

    /// Whether more than `timeout_duration` has passed since the last
    /// segment came in; this depends on the clock, so nothing is claimed
    /// of the answer.
    pub fn is_timed_out(&self, timeout_duration: Duration) -> (r: bool) {
        duration_exceeds(elapsed_since(&self.last_activity), timeout_duration)
    }

    /// Whether every segment is there.
    pub fn is_complete(&self) -> (r: bool)
        ensures
            r == segments_complete(self.total_segments, segments_view(self.segments@)),
    {
        match self.total_segments {
            None => false,
            Some(total) => {
                if self.segments.len() != total as usize {
                    return false;
                }
                let ghost s = segments_view(self.segments@);
                let mut i: usize = 0;
                while i < self.segments.len()
                    invariant
                        s == segments_view(self.segments@),
                        i <= s.len(),
                        s.len() <= 255,
                        forall|j: int| 0 <= j < i ==> s[j].0 == j,
                    decreases s.len() - i,
                {
                    assert(s[i as int].0 == self.segments@[i as int].0);
                    if self.segments[i].0 != i as u8 {
                        return false;
                    }
                    i = i + 1;
                }
                true
            },
        }
    }

    /// The message the segments make, one after another; incomplete
    /// segments are a `SegmentationError`, and a message longer than the
    /// maximum APDU length is `MaxApduLengthExceeded`.
    pub fn reassemble(&self) -> (r: Result<Vec<u8>, ApplicationError>)
        ensures
            !segments_complete(self.total_segments, segments_view(self.segments@)) ==> (r matches Err(
                ApplicationError::SegmentationError(m),
            ) && m@ == "Incomplete segments"@),
            segments_complete(self.total_segments, segments_view(self.segments@)) ==> if joined(segments_view(self.segments@)).len() > self.max_apdu_length {
                r matches Err(ApplicationError::MaxApduLengthExceeded)
            } else {
                r matches Ok(v) && v@ == joined(segments_view(self.segments@))
            },
    {
        if !self.is_complete() {
            return Err(ApplicationError::SegmentationError("Incomplete segments".to_string()));
        }
        let ghost s = segments_view(self.segments@);
        let mut result: Vec<u8> = Vec::new();
        let mut i: usize = 0;
        while i < self.segments.len()
            invariant
                s == segments_view(self.segments@),
                i <= s.len(),
                result@ == joined(s.subrange(0, i as int)),
            decreases s.len() - i,
        {
            assert(s.subrange(0, i + 1).drop_last() =~= s.subrange(0, i as int));
            assert(s[i as int].1 == self.segments@[i as int].1@);
            append_bytes(&mut result, self.segments[i].1.as_slice());
            i = i + 1;
        }
        assert(s.subrange(0, i as int) =~= s);
        if result.len() > self.max_apdu_length as usize {
            return Err(ApplicationError::MaxApduLengthExceeded);
        }
        Ok(result)
    }

    /// The sequence numbers below the total not yet received; empty while
    /// the total is unknown.
    pub fn missing_segments(&self) -> (r: Vec<u8>)
        ensures
            r@ == (match self.total_segments {
                Some(t) => missing_below(segments_view(self.segments@), t as nat),
                None => Seq::<u8>::empty(),
            }),
    {
        let mut missing: Vec<u8> = Vec::new();
        match self.total_segments {
            None => {
                missing
            },
            Some(total) => {
                let ghost s = segments_view(self.segments@);
                let mut k: u8 = 0;
                while k < total
                    invariant
                        s == segments_view(self.segments@),
                        k <= total,
                        missing@ == missing_below(s, k as nat),
                    decreases total - k,
                {
                    let mut found = false;
                    let mut i: usize = 0;
                    while i < self.segments.len()
                        invariant
                            s == segments_view(self.segments@),
                            i <= s.len(),
                            found <==> exists|j: int| 0 <= j < i && s[j].0 == k,
                        decreases s.len() - i,
                    {
                        assert(s[i as int].0 == self.segments@[i as int].0);
                        if self.segments[i].0 == k {
                            found = true;
                        }
                        i = i + 1;
                    }
                    if !found {
                        missing.push(k);
                    }
                    k = k + 1;
                }
                missing
            },
        }
    }

    /// A copy of the buffer's view-level content.
    fn segments_len(&self) -> (r: usize)
        ensures
            r == self.segments@.len(),
    {
        self.segments.len()
    }
}

/// Splitting `data` into segments of at most `size` octets (the last one
/// shorter), as many as it takes.
pub open spec fn chunks(data: Seq<u8>, size: nat) -> Seq<Seq<u8>>
    decreases data.len(),
{
    if data.len() == 0 || size == 0 {
        seq![]
    } else if data.len() <= size {
        seq![data]
    } else {
        seq![data.subrange(0, size as int)] + chunks(data.subrange(size as int, data.len() as int), size)
    }
}

/// The concatenation of a sequence of octet sequences.
pub open spec fn concat(s: Seq<Seq<u8>>) -> Seq<u8>
    decreases s.len(),
{
    if s.len() == 0 {
        seq![]
    } else {
        s[0] + concat(s.drop_first())
    }
}

/// The number of segments `n` octets take at `size` octets each.
pub open spec fn segment_count(n: nat, size: nat) -> nat {
    if size == 0 {
        0
    } else {
        ((n + size - 1) / (size as int)) as nat
    }
}

/// The segments, put back together, are the data.
pub proof fn lemma_chunks_concat(data: Seq<u8>, size: nat)
    requires
        size > 0,
    ensures
        concat(chunks(data, size)) == data,
        chunks(data, size).len() == segment_count(data.len(), size),
        forall|i: int| 0 <= i < chunks(data, size).len() ==> (#[trigger] chunks(data, size)[i]).len() <= size,
    decreases data.len(),
{
    if data.len() == 0 {
        assert((size - 1) / (size as int) == 0) by (nonlinear_arith)
            requires
                size > 0,
        ;
    } else if data.len() <= size {
        assert(concat(seq![data]) =~= data + concat(seq![data].drop_first()));
        assert(concat(seq![data]) =~= data);
        assert((data.len() + size - 1) / (size as int) == 1) by (nonlinear_arith)
            requires
                0 < data.len() <= size,
        ;
    } else {
        let rest = data.subrange(size as int, data.len() as int);
        lemma_chunks_concat(rest, size);
        let c = chunks(data, size);
        assert(c.drop_first() =~= chunks(rest, size));
        assert(data =~= data.subrange(0, size as int) + rest);
        assert((data.len() + size - 1) / (size as int) == (rest.len() + size - 1) / (size as int) + 1) by (nonlinear_arith)
            requires
                rest.len() == data.len() - size,
                size > 0,
        ;
        assert forall|i: int| 0 <= i < c.len() implies (#[trigger] c[i]).len() <= size by {
            if i > 0 {
                assert(c[i] == chunks(rest, size)[i - 1]);
            }
        }
    }
}

/// Manages the reassembly of segmented messages.
#[derive(Debug)]
pub struct SegmentationManager {
    /// Reassembly buffers for incoming segmented messages
    reassembly_buffers: Vec<SegmentReassemblyBuffer>,
    /// Maximum number of concurrent reassembly operations
    max_concurrent_reassemblies: usize,
    /// How long a reassembly may wait for its next segment
    segment_timeout: Duration,
}

/// The views of reassembly buffers.
pub open spec fn buffers_view(s: Seq<SegmentReassemblyBuffer>) -> Seq<BufferView> {
    s.map_values(|b: SegmentReassemblyBuffer| b@)
}

/// The first buffer for `invoke_id`, if any.
pub open spec fn buffer_index(s: Seq<BufferView>, invoke_id: u8) -> Option<int> {
    crate::network::diagnostics::first_index_of(s.map_values(|b: BufferView| b.0), invoke_id)
}

/// The buffers with the one for `invoke_id` found, or made (after
/// dropping buffer `k` if there are `max` or more), and its index.
pub open spec fn buffers_with(s: Seq<BufferView>, max: usize, invoke_id: u8, max_apdu: u16, k: int) -> (Seq<BufferView>, int) {
    match buffer_index(s, invoke_id) {
        Some(i) => (s, i),
        None => {
            let t = if s.len() >= max && s.len() > 0 { s.remove(k) } else { s };
            (t.push((invoke_id, None::<u8>, Seq::<(u8, Seq<u8>)>::empty(), max_apdu)), t.len() as int)
        },
    }
}

/// The test for a buffer of another message than `invoke_id`.
pub open spec fn other_invoke(invoke_id: u8) -> spec_fn(BufferView) -> bool {
    |x: BufferView| x.0 != invoke_id
}

/// What processing a segment makes of the buffers, and its outcome: the
/// reassembled message, none yet, or a message too long (`None` for the
/// outcome of that error); `k` is the buffer dropped when a new one must
/// be made and the limit is reached.
pub open spec fn process_outcome(
    s: Seq<BufferView>,
    max: usize,
    invoke_id: u8,
    seq: u8,
    data: Seq<u8>,
    more_follows: bool,
    max_apdu: u16,
    k: int,
) -> (Seq<BufferView>, Option<Option<Seq<u8>>>) {
    let (t, i) = buffers_with(s, max, invoke_id, max_apdu, k);
    let b = added(t[i], seq, data, !more_follows);
    let u = t.update(i, b);
    if segments_complete(b.1, b.2) {
        if joined(b.2).len() > b.3 {
            (u, None)
        } else {
            (u.filter(other_invoke(invoke_id)), Some(Some(joined(b.2))))
        }
    } else {
        (u, Some(None))
    }
}

/// Whether the buffers `after` and the result `r` are those of the outcome
/// `o` of processing a segment.
pub open spec fn processed(
    o: (Seq<BufferView>, Option<Option<Seq<u8>>>),
    after: Seq<BufferView>,
    r: Result<Option<Vec<u8>>, ApplicationError>,
) -> bool {
    &&& after == o.0
    &&& match o.1 {
        None => r matches Err(ApplicationError::MaxApduLengthExceeded),
        Some(None) => r matches Ok(None),
        Some(Some(m)) => r matches Ok(Some(v)) && v@ == m,
    }
}

/// Whether `a` is `b` with some of its elements left out, the others in
/// their order.
pub open spec fn subsequence<A>(a: Seq<A>, b: Seq<A>) -> bool
    decreases b.len(),
{
    if a.len() == 0 {
        true
    } else if b.len() == 0 {
        false
    } else if a.last() == b.last() && subsequence(a.drop_last(), b.drop_last()) {
        true
    } else {
        subsequence(a, b.drop_last())
    }
}

proof fn lemma_subsequence_push_both<A>(a: Seq<A>, b: Seq<A>, x: A)
    requires
        subsequence(a, b),
    ensures
        subsequence(a.push(x), b.push(x)),
{
    assert(a.push(x).drop_last() =~= a);
    assert(b.push(x).drop_last() =~= b);
}

proof fn lemma_subsequence_push<A>(a: Seq<A>, b: Seq<A>, x: A)
    requires
        subsequence(a, b),
    ensures
        subsequence(a, b.push(x)),
{
    assert(b.push(x).drop_last() =~= b);
}

impl SegmentationManager {
    /// The buffers.
    pub closed spec fn buffers(&self) -> Seq<BufferView> {
        buffers_view(self.reassembly_buffers@)
    }

    /// The number of buffers kept at once.
    pub closed spec fn max_buffers(&self) -> usize {
        self.max_concurrent_reassemblies
    }

    /// Whether every buffer keeps its segments in order.
    pub closed spec fn wf(&self) -> bool {
        forall|i: int| 0 <= i < self.reassembly_buffers@.len() ==> (#[trigger] self.reassembly_buffers@[i]).wf()
    }

    /// No buffers; at most 16 at once; a 60-second segment timeout.
    pub fn new() -> (r: Self)
        ensures
            r.wf(),
            r.buffers().len() == 0,
            r.max_buffers() == 16,
            r.spec_timeout() == seconds_span(60),
    {
        let r = SegmentationManager {
            reassembly_buffers: Vec::new(),
            max_concurrent_reassemblies: 16,
            segment_timeout: duration_from_secs(60),
        };
        assert(r.buffers() =~= Seq::<BufferView>::empty());
        r
    }

    /// Splits a message into segments of at most `max_segment_size`
    /// octets; an empty message is one empty segment, and a message that
    /// takes more than `max_segments` segments is a `SegmentationError`.
    pub fn segment_message(&self, data: &[u8], max_segment_size: usize, max_segments: u8) -> (r: Result<Vec<Vec<u8>>, ApplicationError>)
        requires
            max_segment_size > 0,
            data@.len() + max_segment_size - 1 <= usize::MAX,
        ensures
            data@.len() == 0 ==> (r matches Ok(v) && v@.len() == 1 && v@[0]@.len() == 0),
            data@.len() > 0 && segment_count(data@.len(), max_segment_size as nat) > max_segments ==> (r matches Err(
                ApplicationError::SegmentationError(m),
            ) && m@ == "Message too large for segmentation"@),
            data@.len() > 0 && segment_count(data@.len(), max_segment_size as nat) <= max_segments ==> (r matches Ok(v)
                && v@.map_values(|x: Vec<u8>| x@) == chunks(data@, max_segment_size as nat)),
    {
        if data.len() == 0 {
            let mut v: Vec<Vec<u8>> = Vec::new();
            v.push(Vec::new());
            return Ok(v);
        }
        let count = (data.len() + (max_segment_size - 1)) / max_segment_size;
        if count > max_segments as usize {
            return Err(ApplicationError::SegmentationError("Message too large for segmentation".to_string()));
        }
        let mut segments: Vec<Vec<u8>> = Vec::new();
        let mut offset: usize = 0;
        let mut k: usize = 0;
        proof {
            lemma_chunks_concat(data@, max_segment_size as nat);
            assert(data@.subrange(0, data@.len() as int) =~= data@);
            assert(count >= 1) by (nonlinear_arith)
                requires
                    count == (data@.len() + max_segment_size - 1) / (max_segment_size as int),
                    data@.len() >= 1,
                    max_segment_size > 0,
            ;
            assert(segments@.map_values(|x: Vec<u8>| x@) =~= Seq::<Seq<u8>>::empty());
        }
        while k < count
            invariant
                max_segment_size > 0,
                count == segment_count(data@.len(), max_segment_size as nat),
                k <= count,
                offset <= data@.len(),
                k < count ==> offset < data@.len(),
                k == count ==> offset == data@.len(),
                segments@.map_values(|x: Vec<u8>| x@) + chunks(data@.subrange(offset as int, data@.len() as int), max_segment_size as nat)
                    == chunks(data@, max_segment_size as nat),
                chunks(data@.subrange(offset as int, data@.len() as int), max_segment_size as nat).len() == count - k,
            decreases count - k,
        {
            let end = if data.len() - offset < max_segment_size { data.len() } else { offset + max_segment_size };
            let piece = vstd::slice::slice_to_vec(vstd::slice::slice_subrange(data, offset, end));
            let ghost rest = data@.subrange(offset as int, data@.len() as int);
            let ghost before = segments@.map_values(|x: Vec<u8>| x@);
            segments.push(piece);
            proof {
                let next_rest = data@.subrange(end as int, data@.len() as int);
                if rest.len() <= max_segment_size {
                    assert(piece@ =~= rest);
                    assert(next_rest.len() == 0);
                    assert(chunks(next_rest, max_segment_size as nat) =~= Seq::<Seq<u8>>::empty());
                } else {
                    assert(piece@ =~= rest.subrange(0, max_segment_size as int));
                    assert(next_rest =~= rest.subrange(max_segment_size as int, rest.len() as int));
                }
                assert(segments@.map_values(|x: Vec<u8>| x@) =~= before.push(piece@));
                let c = chunks(rest, max_segment_size as nat);
                assert(c[0] == piece@);
                assert(c.drop_first() =~= chunks(next_rest, max_segment_size as nat));
                assert(before + c =~= before.push(piece@) + c.drop_first());
            }
            offset = end;
            k = k + 1;
        }
        proof {
            let rest = data@.subrange(offset as int, data@.len() as int);
            assert(chunks(rest, max_segment_size as nat) =~= Seq::<Seq<u8>>::empty());
            assert(segments@.map_values(|x: Vec<u8>| x@) =~= segments@.map_values(|x: Vec<u8>| x@) + Seq::<Seq<u8>>::empty());
        }
        Ok(segments)
    }

    /// The number of messages being reassembled.
    pub fn active_reassemblies(&self) -> (r: usize)
        ensures
            r == self.buffers().len(),
    {
        self.reassembly_buffers.len()
    }

    /// The sequence numbers still missing for the first buffer of
    /// `invoke_id` (empty if there is none).
    pub fn get_missing_segments(&self, invoke_id: u8) -> (r: Vec<u8>)
        ensures
            r@ == (match buffer_index(self.buffers(), invoke_id) {
                Some(i) => match self.buffers()[i].1 {
                    Some(t) => missing_below(self.buffers()[i].2, t as nat),
                    None => Seq::<u8>::empty(),
                },
                None => Seq::<u8>::empty(),
            }),
    {
        match self.find_buffer(invoke_id) {
            Some(i) => self.reassembly_buffers[i].missing_segments(),
            None => Vec::new(),
        }
    }

    /// Drops the buffer whose last segment came in earliest (the first
    /// of them where several came at once), if there is one, and gives its
    /// index. Which buffer that is depends on the clock, so only that one
    /// buffer is dropped is claimed.
    fn cleanup_oldest_buffer(&mut self) -> (k: usize)
        requires
            old(self).wf(),
        ensures
            final(self).wf(),
            final(self).max_buffers() == old(self).max_buffers(),
            final(self).spec_timeout() == old(self).spec_timeout(),
            old(self).buffers().len() > 0 ==> k < old(self).buffers().len()
                && final(self).buffers() == old(self).buffers().remove(k as int),
            old(self).buffers().len() == 0 ==> final(self).buffers() == old(self).buffers(),
    {
        if self.reassembly_buffers.len() > 0 {
            let mut oldest: usize = 0;
            let mut i: usize = 1;
            while i < self.reassembly_buffers.len()
                invariant
                    oldest < self.reassembly_buffers@.len(),
                    1 <= i <= self.reassembly_buffers@.len(),
                    *self == *old(self),
                decreases self.reassembly_buffers@.len() - i,
            {
                if instant_before(&self.reassembly_buffers[i].last_activity, &self.reassembly_buffers[oldest].last_activity) {
                    oldest = i;
                }
                i = i + 1;
            }
            let ghost before = self.reassembly_buffers@;
            let _ = self.reassembly_buffers.remove(oldest);
            assert(buffers_view(self.reassembly_buffers@) =~= buffers_view(before).remove(oldest as int));
            assert forall|j: int| 0 <= j < self.reassembly_buffers@.len() implies (#[trigger] self.reassembly_buffers@[j]).wf() by {
                if j < oldest {
                    assert(self.reassembly_buffers@[j] == before[j]);
                } else {
                    assert(self.reassembly_buffers@[j] == before[j + 1]);
                }
            }
            oldest
        } else {
            0
        }
    }

    /// Drops every buffer of `invoke_id`.
    fn drop_buffers_of(&mut self, invoke_id: u8)
        requires
            old(self).wf(),
        ensures
            final(self).wf(),
            final(self).max_buffers() == old(self).max_buffers(),
            final(self).buffers() == old(self).buffers().filter(other_invoke(invoke_id)),
            final(self).spec_timeout() == old(self).spec_timeout(),
    {
        let ghost u = self.buffers();
        let ghost p = other_invoke(invoke_id);
        let mut i: usize = 0;
        let ghost mut j: int = 0;
        while i < self.reassembly_buffers.len()
            invariant
                self.wf(),
                self.max_buffers() == old(self).max_buffers(),
                self.spec_timeout() == old(self).spec_timeout(),
                u == old(self).buffers(),
                p == other_invoke(invoke_id),
                0 <= j <= u.len(),
                i <= self.buffers().len(),
                self.buffers().len() - i == u.len() - j,
                self.buffers().subrange(0, i as int) == u.subrange(0, j).filter(p),
                self.buffers().subrange(i as int, self.buffers().len() as int) == u.subrange(j, u.len() as int),
            decreases self.buffers().len() - i,
        {
            let ghost cur = self.buffers();
            assert(cur[i as int] == u[j]) by {
                assert(cur.subrange(i as int, cur.len() as int)[0] == u.subrange(j, u.len() as int)[0]);
            }
            proof {
                assert(u.subrange(0, j + 1) =~= u.subrange(0, j).push(u[j]));
                u.subrange(0, j).lemma_filter_push(u[j], p);
            }
            if self.reassembly_buffers[i].invoke_id == invoke_id {
                let ghost before = self.reassembly_buffers@;
                let _ = self.reassembly_buffers.remove(i);
                proof {
                    assert(self.buffers() =~= cur.remove(i as int));
                    assert(self.buffers().subrange(0, i as int) =~= cur.subrange(0, i as int));
                    assert forall|k: int| 0 <= k < self.buffers().len() - i implies #[trigger] self.buffers().subrange(i as int, self.buffers().len() as int)[k] == u.subrange(j + 1, u.len() as int)[k] by {
                        assert(cur.subrange(i as int, cur.len() as int)[k + 1] == u.subrange(j, u.len() as int)[k + 1]);
                        assert(self.buffers()[i + k] == cur[i + k + 1]);
                    }
                    assert(self.buffers().subrange(i as int, self.buffers().len() as int) =~= u.subrange(j + 1, u.len() as int));
                    assert forall|k: int| 0 <= k < self.reassembly_buffers@.len() implies (#[trigger] self.reassembly_buffers@[k]).wf() by {
                        if k < i {
                            assert(self.reassembly_buffers@[k] == before[k]);
                        } else {
                            assert(self.reassembly_buffers@[k] == before[k + 1]);
                        }
                    }
                    j = j + 1;
                }
            } else {
                proof {
                    assert(self.buffers().subrange(0, i + 1) =~= self.buffers().subrange(0, i as int).push(cur[i as int]));
                    assert forall|k: int| 0 <= k < self.buffers().len() - i - 1 implies #[trigger] self.buffers().subrange(i + 1, self.buffers().len() as int)[k] == u.subrange(j + 1, u.len() as int)[k] by {
                        assert(cur.subrange(i as int, cur.len() as int)[k + 1] == u.subrange(j, u.len() as int)[k + 1]);
                    }
                    assert(self.buffers().subrange(i + 1, self.buffers().len() as int) =~= u.subrange(j + 1, u.len() as int));
                    j = j + 1;
                }
                i = i + 1;
            }
        }
        proof {
            assert(u.subrange(j, u.len() as int).len() == 0);
            assert(j == u.len());
            assert(u.subrange(0, j) =~= u);
            assert(self.buffers().subrange(0, i as int) =~= self.buffers());
        }
    }

    /// Finds the buffer of `invoke_id`, or makes one (dropping the oldest
    /// buffer when the limit is reached); gives its index, and which buffer
    /// was dropped.
    fn buffer_for(&mut self, invoke_id: u8, max_apdu_length: u16) -> (res: (usize, Ghost<int>))
        requires
            old(self).wf(),
        ensures
            final(self).wf(),
            final(self).max_buffers() == old(self).max_buffers(),
            final(self).spec_timeout() == old(self).spec_timeout(),
            0 <= res.1@ && (res.1@ < old(self).buffers().len() || old(self).buffers().len() == 0),
            final(self).buffers() == buffers_with(old(self).buffers(), old(self).max_buffers(), invoke_id, max_apdu_length, res.1@).0,
            res.0 as int == buffers_with(old(self).buffers(), old(self).max_buffers(), invoke_id, max_apdu_length, res.1@).1,
            res.0 < final(self).buffers().len(),
    {
        match self.find_buffer(invoke_id) {
            Some(i) => (i, Ghost(0)),
            None => {
                let mut dropped: usize = 0;
                if self.reassembly_buffers.len() >= self.max_concurrent_reassemblies {
                    dropped = self.cleanup_oldest_buffer();
                }
                let ghost before = self.reassembly_buffers@;
                self.reassembly_buffers.push(SegmentReassemblyBuffer::new(invoke_id, max_apdu_length));
                proof {
                    assert(self.buffers() =~= buffers_view(before).push(
                        (invoke_id, None::<u8>, Seq::<(u8, Seq<u8>)>::empty(), max_apdu_length)));
                    assert forall|k: int| 0 <= k < self.reassembly_buffers@.len() implies (#[trigger] self.reassembly_buffers@[k]).wf() by {
                        if k < before.len() {
                            assert(self.reassembly_buffers@[k] == before[k]);
                        }
                    }
                }
                (self.reassembly_buffers.len() - 1, Ghost(dropped as int))
            },
        }
    }

    /// Takes in a segment of the message `invoke_id`: its buffer is found,
    /// or made (dropping the first buffer when the limit is reached); the
    /// segment is added; once all segments are in, the message is put
    /// together and every buffer of `invoke_id` dropped. A message longer
    /// than its maximum APDU length is `MaxApduLengthExceeded`, and its
    /// buffer is kept.
    #[verifier::rlimit(40)]
    pub fn process_segment(
        &mut self,
        invoke_id: u8,
        sequence_number: u8,
        data: Vec<u8>,
        more_follows: bool,
        max_apdu_length: u16,
    ) -> (r: Result<Option<Vec<u8>>, ApplicationError>)
        requires
            old(self).wf(),
            more_follows || sequence_number < 255,
        ensures
            final(self).wf(),
            final(self).max_buffers() == old(self).max_buffers(),
            final(self).spec_timeout() == old(self).spec_timeout(),
            exists|k: int|
                0 <= k && (k < old(self).buffers().len() || old(self).buffers().len() == 0) && processed(
                    #[trigger] process_outcome(old(self).buffers(), old(self).max_buffers(), invoke_id, sequence_number,
                        data@, more_follows, max_apdu_length, k),
                    final(self).buffers(),
                    r,
                ),
    {
        let ghost s0 = self.buffers();
        let (idx, Ghost(k)) = self.buffer_for(invoke_id, max_apdu_length);
        let ghost t = self.buffers();
        assert(t == buffers_with(s0, old(self).max_buffers(), invoke_id, max_apdu_length, k).0);
        assert(idx as int == buffers_with(s0, old(self).max_buffers(), invoke_id, max_apdu_length, k).1);
        let ghost o = process_outcome(s0, old(self).max_buffers(), invoke_id, sequence_number, data@, more_follows,
            max_apdu_length, k);
        let ghost rest = self.reassembly_buffers@;
        let mut buffer = self.reassembly_buffers.remove(idx);
        assert(buffer.wf());
        assert(buffer@ == t[idx as int]);
        let _ = buffer.add_segment(sequence_number, data, !more_follows);
        let ghost b = buffer@;
        let complete = buffer.is_complete();
        if complete {
            let outcome = buffer.reassemble();
            self.reassembly_buffers.insert(idx, buffer);
            proof {
                assert(self.buffers() =~= t.update(idx as int, b));
                assert forall|k: int| 0 <= k < self.reassembly_buffers@.len() implies (#[trigger] self.reassembly_buffers@[k]).wf() by {
                    if k < idx {
                        assert(self.reassembly_buffers@[k] == rest[k]);
                    } else if k > idx {
                        assert(self.reassembly_buffers@[k] == rest[k]);
                    }
                }
            }
            match outcome {
                Err(e) => {
                    let r: Result<Option<Vec<u8>>, ApplicationError> = Err(e);
                    assert(processed(o, self.buffers(), r));
                    r
                },
                Ok(result) => {
                    self.drop_buffers_of(invoke_id);
                    let r: Result<Option<Vec<u8>>, ApplicationError> = Ok(Some(result));
                    assert(processed(o, self.buffers(), r));
                    r
                },
            }
        } else {
            self.reassembly_buffers.insert(idx, buffer);
            proof {
                assert(self.buffers() =~= t.update(idx as int, b));
                assert forall|k: int| 0 <= k < self.reassembly_buffers@.len() implies (#[trigger] self.reassembly_buffers@[k]).wf() by {
                    if k < idx {
                        assert(self.reassembly_buffers@[k] == rest[k]);
                    } else if k > idx {
                        assert(self.reassembly_buffers@[k] == rest[k]);
                    }
                }
            }
            let r: Result<Option<Vec<u8>>, ApplicationError> = Ok(None);
            assert(processed(o, self.buffers(), r));
            r
        }
    }

    /// Drops every buffer whose reassembly has waited longer than the
    /// segment timeout. Which those are depends on the clock, so only that
    /// the buffers kept are some of the buffers, in their order, is claimed.
    pub fn cleanup_timed_out_buffers(&mut self)
        requires
            old(self).wf(),
        ensures
            final(self).wf(),
            final(self).max_buffers() == old(self).max_buffers(),
            final(self).spec_timeout() == old(self).spec_timeout(),
            subsequence(final(self).buffers(), old(self).buffers()),
    {
        let mut kept: Vec<SegmentReassemblyBuffer> = Vec::new();
        let mut all: Vec<SegmentReassemblyBuffer> = Vec::new();
        std::mem::swap(&mut all, &mut self.reassembly_buffers);
        let ghost u = buffers_view(all@);
        let ghost raw = all@;
        let n = all.len();
        let mut i: usize = 0;
        while i < n
            invariant
                n == raw.len(),
                i <= n,
                all@.len() == n - i,
                forall|j: int| 0 <= j < all@.len() ==> all@[j] == raw[j + i],
                u == buffers_view(raw),
                subsequence(buffers_view(kept@), u.take(i as int)),
                forall|j: int| 0 <= j < raw.len() ==> (#[trigger] raw[j]).wf(),
                forall|j: int| 0 <= j < kept@.len() ==> (#[trigger] kept@[j]).wf(),
                self.max_concurrent_reassemblies == old(self).max_concurrent_reassemblies,
                self.segment_timeout == old(self).segment_timeout,
            decreases n - i,
        {
            let buffer = all.remove(0);
            assert(buffer == raw[i as int]);
            let ghost before = buffers_view(kept@);
            proof {
                assert(u.take(i + 1) =~= u.take(i as int).push(u[i as int]));
                assert(u[i as int] == buffer@);
            }
            if !buffer.is_timed_out(self.segment_timeout) {
                kept.push(buffer);
                proof {
                    assert(buffers_view(kept@) =~= before.push(u[i as int]));
                    lemma_subsequence_push_both(before, u.take(i as int), u[i as int]);
                }
            } else {
                proof {
                    lemma_subsequence_push(before, u.take(i as int), u[i as int]);
                }
            }
            i = i + 1;
        }
        proof {
            assert(u.take(n as int) =~= u);
            assert(u =~= old(self).buffers());
        }
        self.reassembly_buffers = kept;
    }

    /// The segment timeout.
    pub closed spec fn spec_timeout(&self) -> Duration {
        self.segment_timeout
    }

    /// Sets how long a reassembly may wait for its next segment.
    pub fn set_segment_timeout(&mut self, timeout: Duration)
        ensures
            final(self).spec_timeout() == timeout,
            final(self).buffers() == old(self).buffers(),
            final(self).max_buffers() == old(self).max_buffers(),
            final(self).wf() == old(self).wf(),
    {
        self.segment_timeout = timeout;
    }

    /// The index of the first buffer of `invoke_id`.
    fn find_buffer(&self, invoke_id: u8) -> (r: Option<usize>)
        ensures
            match r {
                Some(i) => buffer_index(self.buffers(), invoke_id) == Some(i as int) && i < self.buffers().len(),
                None => buffer_index(self.buffers(), invoke_id) is None,
            },
    {
        let ghost keys = self.buffers().map_values(|b: BufferView| b.0);
        let mut i: usize = 0;
        while i < self.reassembly_buffers.len()
            invariant
                keys == self.buffers().map_values(|b: BufferView| b.0),
                i <= self.reassembly_buffers@.len(),
                forall|j: int| 0 <= j < i ==> keys[j] != invoke_id,
            decreases self.reassembly_buffers@.len() - i,
        {
            assert(keys[i as int] == self.reassembly_buffers@[i as int].invoke_id);
            if self.reassembly_buffers[i].invoke_id == invoke_id {
                proof {
                    crate::network::diagnostics::lemma_first_index_of(keys, invoke_id, i as int);
                }
                return Some(i);
            }
            i = i + 1;
        }
        proof {
            crate::network::diagnostics::lemma_first_index_of_none(keys, invoke_id);
        }
        None
    }
}

impl Default for SegmentationManager {
    fn default() -> (r: Self)
        ensures
            r.wf(),
            r.buffers().len() == 0,
            r.max_buffers() == 16,
            r.spec_timeout() == seconds_span(60),
    {
        SegmentationManager::new()
    }
}

/// A run of `add_segment` calls: the sequence number, data and last-segment
/// flag of each, in order.
pub type SegmentHistory = Seq<(u8, Seq<u8>, bool)>;

/// The buffer `b` after the segments of `h` were added to it, in order.
pub open spec fn after_segments(b: BufferView, h: SegmentHistory) -> BufferView
    decreases h.len(),
{
    if h.len() == 0 {
        b
    } else {
        added(after_segments(b, h.drop_last()), h.last().0, h.last().1, h.last().2)
    }
}

/// Whether a segment numbered `k` is among those of `h`.
pub open spec fn received(h: SegmentHistory, k: u8) -> bool {
    exists|i: int| 0 <= i < h.len() && h[i].0 == k
}

/// The total that the latest last segment of `h` gives, if one came.
pub open spec fn last_total(h: SegmentHistory) -> Option<u8>
    decreases h.len(),
{
    if h.len() == 0 {
        None
    } else if h.last().2 {
        Some((h.last().0 + 1) as u8)
    } else {
        last_total(h.drop_last())
    }
}

/// Whether each last segment of `h` could be added: its number is below 255.
pub open spec fn history_addable(h: SegmentHistory) -> bool {
    forall|i: int| 0 <= i < h.len() && #[trigger] h[i].2 ==> h[i].0 < 255
}

/// Adding a segment keeps the segments in order, and adds its number to
/// those received.
proof fn lemma_added(b: BufferView, seq: u8, data: Seq<u8>, is_last: bool)
    requires
        segments_sorted(b.2),
    ensures
        segments_sorted(added(b, seq, data, is_last).2),
        forall|k: u8| #[trigger] has_segment(added(b, seq, data, is_last).2, k) <==> (has_segment(b.2, k) || k == seq),
{
    let s = b.2;
    if !has_segment(s, seq) {
        lemma_insertion_point(s, seq);
        let p = insertion_point(s, seq);
        let u = s.insert(p, (seq, data));
        assert(u == added(b, seq, data, is_last).2);
        assert(u.len() == s.len() + 1);
        assert forall|j: int| 0 <= j < u.len() implies #[trigger] u[j] == (if j < p { s[j] } else if j == p { (seq, data) } else { s[j - 1] }) by {
            s.insert_ensures(p, (seq, data));
        }
        assert forall|a: int, c: int| 0 <= a < c < u.len() implies u[a].0 < u[c].0 by {
            assert(u[a] == (if a < p { s[a] } else if a == p { (seq, data) } else { s[a - 1] }));
            assert(u[c] == (if c < p { s[c] } else if c == p { (seq, data) } else { s[c - 1] }));
        }
        assert forall|k: u8| #[trigger] has_segment(u, k) <==> (has_segment(s, k) || k == seq) by {
            if has_segment(u, k) {
                let j = choose|j: int| 0 <= j < u.len() && u[j].0 == k;
                assert(u[j] == (if j < p { s[j] } else if j == p { (seq, data) } else { s[j - 1] }));
            }
            if has_segment(s, k) {
                let j = choose|j: int| 0 <= j < s.len() && s[j].0 == k;
                if j < p {
                    assert(u[j] == s[j]);
                } else {
                    assert(u[j + 1] == s[j]);
                }
            }
            if k == seq {
                assert(u[p] == (seq, data));
            }
        }
    }
}

/// What a run of additions to a fresh buffer leaves: the invoke ID and
/// maximum length it was made with, the total of the latest last segment,
/// segments in order, and a segment for each number received.
proof fn lemma_after_segments(id: u8, max_apdu: u16, h: SegmentHistory)
    ensures
        after_segments((id, None, Seq::empty(), max_apdu), h).0 == id,
        after_segments((id, None, Seq::empty(), max_apdu), h).1 == last_total(h),
        after_segments((id, None, Seq::empty(), max_apdu), h).3 == max_apdu,
        segments_sorted(after_segments((id, None, Seq::empty(), max_apdu), h).2),
        forall|k: u8| #[trigger] has_segment(after_segments((id, None, Seq::empty(), max_apdu), h).2, k) <==> received(h, k),
    decreases h.len(),
{
    let b0: BufferView = (id, None, Seq::empty(), max_apdu);
    if h.len() > 0 {
        let t = h.drop_last();
        lemma_after_segments(id, max_apdu, t);
        let prev = after_segments(b0, t);
        lemma_added(prev, h.last().0, h.last().1, h.last().2);
        assert forall|k: u8| #[trigger] has_segment(after_segments(b0, h).2, k) <==> received(h, k) by {
            if received(h, k) {
                let i = choose|i: int| 0 <= i < h.len() && h[i].0 == k;
                if i < h.len() - 1 {
                    assert(t[i] == h[i]);
                    assert(received(t, k));
                }
            }
            if received(t, k) {
                let i = choose|i: int| 0 <= i < t.len() && t[i].0 == k;
                assert(h[i] == t[i]);
            }
        }
    }
}

/// In order, the segments are all there, numbered from 0 up to below `t`,
/// exactly when the numbers present are those below `t`.
proof fn lemma_sorted_complete(s: SegmentsView, t: u8)
    requires
        segments_sorted(s),
    ensures
        segments_complete(Some(t), s) <==> forall|k: u8| #[trigger] has_segment(s, k) <==> k < t,
{
    if segments_complete(Some(t), s) {
        assert forall|k: u8| #[trigger] has_segment(s, k) <==> k < t by {
            if k < t {
                assert(s[k as int].0 == k);
            }
        }
    }
    if forall|k: u8| #[trigger] has_segment(s, k) <==> k < t {
        lemma_numbered_from_zero(s, t, s.len() as int);
        if s.len() > t {
            assert(has_segment(s, s[t as int].0));
        }
        if s.len() < t {
            assert(has_segment(s, (t - 1) as u8));
            let j = choose|j: int| 0 <= j < s.len() && s[j].0 == (t - 1) as u8;
        }
    }
}

/// Segments in order whose numbers are those below `t` are numbered
/// 0, 1, 2, ... in their first `n` places.
proof fn lemma_numbered_from_zero(s: SegmentsView, t: u8, n: int)
    requires
        segments_sorted(s),
        0 <= n <= s.len(),
        forall|k: u8| #[trigger] has_segment(s, k) <==> k < t,
    ensures
        forall|i: int| 0 <= i < n ==> s[i].0 == i,
    decreases n,
{
    if n > 0 {
        lemma_numbered_from_zero(s, t, n - 1);
        let i = n - 1;
        let v = s[i].0;
        if i > 0 {
            assert(s[i - 1].0 == i - 1);
        }
        assert(v >= i);
        if v > i {
            assert(has_segment(s, v));
            assert(has_segment(s, i as u8));
            let j = choose|j: int| 0 <= j < s.len() && s[j].0 == i as u8;
            if j > i {
                assert(s[j].0 > v);
            }
        }
    }
}

/// The numbers that `missing_below` lists are those below `t` with no
/// segment, each once and in ascending order.
pub proof fn lemma_missing_below(s: SegmentsView, t: nat)
    requires
        t <= 256,
    ensures
        forall|k: u8| #[trigger] missing_below(s, t).contains(k) <==> (k < t && !has_segment(s, k)),
        forall|a: int, b: int| 0 <= a < b < missing_below(s, t).len() ==> missing_below(s, t)[a] < missing_below(s, t)[b],
        forall|a: int| 0 <= a < missing_below(s, t).len() ==> missing_below(s, t)[a] < t,
    decreases t,
{
    if t > 0 {
        let r = missing_below(s, (t - 1) as nat);
        lemma_missing_below(s, (t - 1) as nat);
        let top = (t - 1) as u8;
        if !has_segment(s, top) {
            let m = r.push(top);
            assert(missing_below(s, t) == m);
            assert forall|k: u8| #[trigger] m.contains(k) <==> (k < t && !has_segment(s, k)) by {
                if m.contains(k) {
                    let j = choose|j: int| 0 <= j < m.len() && m[j] == k;
                    if j < r.len() {
                        assert(r.contains(k));
                    }
                }
                if k < t && !has_segment(s, k) {
                    if k == top {
                        assert(m[r.len() as int] == k);
                    } else {
                        assert(r.contains(k));
                        let j = choose|j: int| 0 <= j < r.len() && r[j] == k;
                        assert(m[j] == k);
                    }
                }
            }
        } else {
            assert forall|k: u8| #[trigger] r.contains(k) <==> (k < t && !has_segment(s, k)) by {
                if k == top {
                    if r.contains(k) {
                        let j = choose|j: int| 0 <= j < r.len() && r[j] == k;
                    }
                }
            }
        }
    }
}

/// A message whose segments came in any order, each possibly more than
/// once, is complete exactly when a last segment came and the numbers
/// received are those below the total it gives (the latest such total);
/// before that, the missing segments are the numbers below the total not
/// received, once each in ascending order, and none while no last segment
/// came.
pub proof fn lemma_history_complete(id: u8, max_apdu: u16, h: SegmentHistory)
    requires
        history_addable(h),
    ensures
        ({
            let b = after_segments((id, None, Seq::empty(), max_apdu), h);
            &&& segments_complete(b.1, b.2) <==> (last_total(h) matches Some(t) && forall|k: u8| #[trigger] received(h, k) <==> k < t)
            &&& b.1 is None <==> last_total(h) is None
            &&& b.1 matches Some(t) ==> {
                &&& forall|k: u8| #[trigger] missing_below(b.2, t as nat).contains(k) <==> (k < t && !received(h, k))
                &&& forall|a: int, c: int| 0 <= a < c < missing_below(b.2, t as nat).len()
                    ==> missing_below(b.2, t as nat)[a] < missing_below(b.2, t as nat)[c]
            }
        }),
{
    let b = after_segments((id, None, Seq::empty(), max_apdu), h);
    lemma_after_segments(id, max_apdu, h);
    if let Some(t) = b.1 {
        lemma_sorted_complete(b.2, t);
        lemma_missing_below(b.2, t as nat);
        assert(segments_complete(b.1, b.2) <==> forall|k: u8| #[trigger] received(h, k) <==> k < t) by {
            if forall|k: u8| #[trigger] received(h, k) <==> k < t {
                assert forall|k: u8| #[trigger] has_segment(b.2, k) <==> k < t by {
                    assert(has_segment(b.2, k) <==> received(h, k));
                }
            }
            if forall|k: u8| #[trigger] has_segment(b.2, k) <==> k < t {
                assert forall|k: u8| #[trigger] received(h, k) <==> k < t by {
                    assert(has_segment(b.2, k) <==> received(h, k));
                }
            }
        }
        assert forall|k: u8| #[trigger] missing_below(b.2, t as nat).contains(k) <==> (k < t && !received(h, k)) by {
            assert(has_segment(b.2, k) <==> received(h, k));
        }
    }
}

} // verus!
