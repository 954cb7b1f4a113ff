//! What to hand to the audio tool: the time ranges to cut, and how to put
//! them together.

use vstd::prelude::*;
use crate::clip::{Clip, ClipView, document};

verus! {

/// A stretch of the audio, in milliseconds. A range that ends before it
/// starts is kept as it is: the audio tool refuses it.
#[derive(PartialEq, Eq, Clone, Copy, Debug, Structural)]
pub struct AudioRange {
    pub start_time: u64,
    pub end_time: u64,
}

/// How to render a list of ranges into one audio.
#[derive(Debug)]
pub enum RenderPlan {
    /// There is no range.
    Empty,
    /// One range: its cut is the result.
    Single(AudioRange),
    /// Several ranges: their cuts are concatenated in this order.
    Concatenate(Vec<AudioRange>),
}

/// The range that the clip `c` covers.
pub open spec fn range_of(c: ClipView) -> AudioRange {
    AudioRange { start_time: c.start_time as u64, end_time: c.end_time as u64 }
}

/// The ranges of the clips of `doc` from position `from` on, in order.
pub open spec fn ranges_from(doc: Seq<ClipView>, from: int) -> Seq<AudioRange> {
    if 0 <= from < doc.len() {
        Seq::new((doc.len() - from) as nat, |i: int| range_of(doc[from + i]))
    } else {
        Seq::empty()
    }
}

/// Whether `plan` renders exactly the ranges `ranges`.
pub open spec fn renders(plan: RenderPlan, ranges: Seq<AudioRange>) -> bool {
    if ranges.len() == 0 {
        plan is Empty
    } else if ranges.len() == 1 {
        plan == RenderPlan::Single(ranges[0])
    } else {
        plan matches RenderPlan::Concatenate(list) && list@ == ranges
    }
}

/// The ranges to cut for playing or exporting `clips` from position
/// `from` on.
pub fn clip_ranges(clips: &Vec<Clip>, from: usize) -> (ranges: Vec<AudioRange>)
    ensures
        ranges@ == ranges_from(document(clips@), from as int),
{
    let mut ranges: Vec<AudioRange> = Vec::new();
    let n = clips.len();
    if from >= n {
        return ranges;
    }
    let mut i: usize = from;
    while i < n
        invariant
            from <= i <= n == clips@.len(),
            ranges@.len() == i - from,
            forall|j: int| 0 <= j < i - from ==> ranges@[j] == range_of(clips@[from + j]@),
        decreases n - i,
    {
        ranges.push(AudioRange { start_time: clips[i].start_time, end_time: clips[i].end_time });
        i += 1;
    }
    assert(ranges@ =~= ranges_from(document(clips@), from as int));
    ranges
}

/// The plan for rendering `clips` from position `from` on: for the whole
/// document where `from` is 0, as an export wants it; from the cursor on,
/// as a playlist wants it.
pub fn render_plan(clips: &Vec<Clip>, from: usize) -> (plan: RenderPlan)
    ensures
        renders(plan, ranges_from(document(clips@), from as int)),
{
    let ranges = clip_ranges(clips, from);
    if ranges.len() == 0 {
        RenderPlan::Empty
    } else if ranges.len() == 1 {
        RenderPlan::Single(ranges[0])
    } else {
        RenderPlan::Concatenate(ranges)
    }
}

} // verus!
