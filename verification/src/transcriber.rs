//! The result model of a transcription run: an ordered, read-only sequence of
//! timed text segments, assembled from the values the inference engine emits.
use vstd::prelude::*;

verus! {

/// The mathematical content of one segment: its two timestamps, in the
/// engine's time units, and its recognized text.
pub ghost struct SegmentView {
    pub start_timestamp: int,
    pub end_timestamp: int,
    pub text: Seq<char>,
}

/// One contiguous span of recognized speech. Immutable after creation.
#[derive(Debug)]
pub struct TranscriberOutputSegment {
    start_timestamp: i64,
    end_timestamp: i64,
    text: String,
}

impl View for TranscriberOutputSegment {
    type V = SegmentView;

    closed spec fn view(&self) -> SegmentView {
        SegmentView {
            start_timestamp: self.start_timestamp as int,
            end_timestamp: self.end_timestamp as int,
            text: self.text@,
        }
    }
}

impl TranscriberOutputSegment {
    /// Packages one emitted segment exactly as the engine reported it.
    pub fn new(start_timestamp: i64, end_timestamp: i64, text: String) -> (s: Self)
        ensures
            s@.start_timestamp == start_timestamp,
            s@.end_timestamp == end_timestamp,
            s@.text == text@,
    {
        TranscriberOutputSegment { start_timestamp, end_timestamp, text }
    }

    pub fn get_start_timestamp(&self) -> (r: &i64)
        ensures
            *r == self@.start_timestamp,
    {
        &self.start_timestamp
    }

    pub fn get_end_timestamp(&self) -> (r: &i64)
        ensures
            *r == self@.end_timestamp,
    {
        &self.end_timestamp
    }

    pub fn get_text(&self) -> (r: &str)
        ensures
            r@ == self@.text,
    {
        self.text.as_str()
    }
}

/// Timestamps are monotonically non-decreasing across the sequence: within
/// each segment the start does not exceed the end, and no segment starts
/// before the previous one ended.
pub open spec fn timestamps_ordered(segs: Seq<SegmentView>) -> bool {
    &&& forall|i: int|
        0 <= i < segs.len() ==> #[trigger] segs[i].start_timestamp <= segs[i].end_timestamp
    &&& forall|i: int|
        0 <= i && i + 1 < segs.len() ==> #[trigger] segs[i].end_timestamp <= segs[i
            + 1].start_timestamp
}

/// An ordered aggregate of timed text segments; insertion order is the
/// engine's emission order, which is chronological order.
#[derive(Debug)]
pub struct TranscriberOutput {
    segments: Vec<TranscriberOutputSegment>,
}

impl View for TranscriberOutput {
    type V = Seq<SegmentView>;

    closed spec fn view(&self) -> Seq<SegmentView> {
        self.segments@.map_values(|s: TranscriberOutputSegment| s@)
    }
}

impl TranscriberOutput {
    /// Wraps the collected segments without reordering or dropping any.
    pub fn new(segments: Vec<TranscriberOutputSegment>) -> (out: Self)
        ensures
            out@ == segments@.map_values(|s: TranscriberOutputSegment| s@),
            out@.len() == segments@.len(),
    {
        TranscriberOutput { segments }
    }

    pub fn get_segments(&self) -> (r: &Vec<TranscriberOutputSegment>)
        ensures
            r@.len() == self@.len(),
            forall|i: int| 0 <= i < self@.len() ==> (#[trigger] r@[i])@ == self@[i],
    {
        &self.segments
    }

    /// Decides whether the held segments satisfy the chronological-order
    /// invariant the engine promises of its emission order.
    pub fn has_ordered_timestamps(&self) -> (r: bool)
        ensures
            r == timestamps_ordered(self@),
    {
        let n = self.segments.len();
        let mut i: usize = 0;
        while i < n
            invariant
                n == self.segments.len(),
                i <= n,
                forall|j: int|
                    0 <= j < i ==> #[trigger] self@[j].start_timestamp <= self@[j].end_timestamp,
                forall|j: int|
                    0 <= j && j + 1 < n && j < i ==> #[trigger] self@[j].end_timestamp <= self@[j
                        + 1].start_timestamp,
            decreases n - i,
        {
            let seg = &self.segments[i];
            proof {
                assert(self@[i as int] == self.segments@[i as int]@);
            }
            if seg.start_timestamp > seg.end_timestamp {
                proof {
                    assert(self@[i as int].start_timestamp > self@[i as int].end_timestamp);
                }
                return false;
            }
            if i + 1 < n {
                proof {
                    assert(self@[i + 1] == self.segments@[i + 1]@);
                }
                if seg.end_timestamp > self.segments[i + 1].start_timestamp {
                    proof {
                        assert(self@[i as int].end_timestamp > self@[i + 1].start_timestamp);
                    }
                    return false;
                }
            }
            i += 1;
        }
        true
    }
}

} // verus!
