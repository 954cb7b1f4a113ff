//! The timeline of a chunked audio: the windows that cover it, and the
//! placing of each window's clips, timed from 0, on the one timeline.

use vstd::prelude::*;
use crate::clip::{Clip, ClipView, document};

verus! {

/// The design default of the window length, in milliseconds.
pub const CHUNK_DURATION_MS: u64 = 300_000;

/// The number of windows of length `window` that cover `duration`:
/// `duration / window`, rounded up.
pub open spec fn chunk_count(duration: int, window: int) -> int {
    if window <= 0 || duration <= 0 {
        0
    } else {
        (duration + window - 1) / window
    }
}

/// Where window `index` starts.
pub open spec fn chunk_start(index: int, window: int) -> int {
    index * window
}

/// How long window `index` is: `window`, or what is left of `duration` in
/// the last window.
pub open spec fn chunk_length(index: int, duration: int, window: int) -> int {
    if chunk_start(index + 1, window) < duration {
        window
    } else {
        duration - chunk_start(index, window)
    }
}

/// Window `index` starts inside the audio exactly if it is one of the
/// `chunk_count` windows.
pub proof fn lemma_chunk_start_in_range(index: int, duration: int, window: int)
    requires
        window > 0,
        duration > 0,
        0 <= index,
    ensures
        index < chunk_count(duration, window) <==> chunk_start(index, window) < duration,
{
    let n = (duration + window - 1) / window;
    let r = (duration + window - 1) % window;
    assert(duration + window - 1 == window * n + r && 0 <= r < window) by {
        vstd::arithmetic::div_mod::lemma_fundamental_div_mod(duration + window - 1, window);
    }
    assert(index < n <==> index * window < duration) by (nonlinear_arith)
        requires
            duration + window - 1 == window * n + r,
            0 <= r < window,
            window > 0,
            0 <= index,
    {
        if index < n {
            assert(index + 1 <= n);
            assert((index + 1) * window <= n * window);
        } else {
            assert(n * window <= index * window);
        }
    }
}

/// Computes `chunk_count`.
pub fn num_chunks(duration: u64, window: u64) -> (n: u64)
    ensures
        n == chunk_count(duration as int, window as int),
{
    if window == 0 {
        return 0;
    }
    let whole = duration / window;
    let rest = duration % window;
    proof {
        let d = duration as int;
        let w = window as int;
        vstd::arithmetic::div_mod::lemma_fundamental_div_mod(d, w);
        if d > 0 {
            let q = (d + w - 1) / w;
            let r = (d + w - 1) % w;
            vstd::arithmetic::div_mod::lemma_fundamental_div_mod(d + w - 1, w);
            assert(q == d / w + if d % w != 0 {
                1int
            } else {
                0int
            }) by (nonlinear_arith)
                requires
                    d == w * (d / w) + d % w,
                    0 <= d % w < w,
                    d + w - 1 == w * q + r,
                    0 <= r < w,
                    w > 0,
            {
                let a = d / w;
                let b = d % w;
                if b == 0 {
                    assert(w * (q - a) == w - 1 - r);
                    if q - a >= 1 {
                        assert(w * (q - a) >= w);
                    }
                    if q - a <= -1 {
                        assert(w * (q - a) <= -w);
                    }
                } else {
                    assert(w * (q - a - 1) == b - 1 - r);
                    if q - a - 1 >= 1 {
                        assert(w * (q - a - 1) >= w);
                    }
                    if q - a - 1 <= -1 {
                        assert(w * (q - a - 1) <= -w);
                    }
                }
            }
        }
    }
    if rest != 0 {
        assert(whole < u64::MAX) by (nonlinear_arith)
            requires
                duration == window * whole + rest,
                0 < rest < window,
                duration <= u64::MAX,
                whole >= 0,
        {
            assert(window >= 2);
            assert(window * whole >= 2 * whole);
        }
        whole + 1
    } else {
        whole
    }
}

/// The clip `c` of a window that starts at `offset`, on the timeline of an
/// audio that lasts `duration`: both times moved by `offset`, and the end
/// brought down to `duration` where it lies beyond.
pub open spec fn place(c: ClipView, offset: int, duration: int) -> ClipView {
    ClipView {
        start_time: c.start_time + offset,
        end_time: if c.end_time + offset > duration {
            duration
        } else {
            c.end_time + offset
        },
        ..c
    }
}

/// The clips of one window on the timeline: those that start before the
/// audio ends, each placed, in their order.
pub open spec fn placed(chunk: Seq<ClipView>, offset: int, duration: int) -> Seq<ClipView>
    decreases chunk.len(),
{
    if chunk.len() == 0 {
        Seq::empty()
    } else if chunk.last().start_time + offset < duration {
        placed(chunk.drop_last(), offset, duration).push(place(chunk.last(), offset, duration))
    } else {
        placed(chunk.drop_last(), offset, duration)
    }
}

/// The document that the window results `chunks` make: the placed clips
/// of each window, in window order.
pub open spec fn stitched(chunks: Seq<Seq<ClipView>>, window: int, duration: int) -> Seq<
    ClipView,
>
    decreases chunks.len(),
{
    if chunks.len() == 0 {
        Seq::empty()
    } else {
        stitched(chunks.drop_last(), window, duration) + placed(
            chunks.last(),
            chunk_start(chunks.len() - 1, window),
            duration,
        )
    }
}

/// A window that starts where the audio has ended, or later, places no
/// clip.
pub proof fn lemma_placed_beyond_audio(chunk: Seq<ClipView>, offset: int, duration: int)
    requires
        offset >= duration,
        forall|i: int| 0 <= i < chunk.len() ==> 0 <= (#[trigger] chunk[i]).start_time,
    ensures
        placed(chunk, offset, duration).len() == 0,
    decreases chunk.len(),
{
    if chunk.len() > 0 {
        let init = chunk.drop_last();
        assert forall|i: int| 0 <= i < init.len() implies 0 <= (#[trigger] init[i]).start_time by {
            assert(init[i] == chunk[i]);
        }
        lemma_placed_beyond_audio(init, offset, duration);
        assert(0 <= chunk[chunk.len() - 1].start_time);
    }
}

/// Appends to `acc` the clips of the window result `chunk`, placed on the
/// timeline.
pub fn place_chunk(acc: &mut Vec<Clip>, chunk: Vec<Clip>, offset: u64, duration: u64)
    ensures
        document(final(acc)@) == document(old(acc)@) + placed(
            document(chunk@),
            offset as int,
            duration as int,
        ),
{
    if offset >= duration {
        proof {
            lemma_placed_beyond_audio(document(chunk@), offset as int, duration as int);
            assert(document(acc@) =~= document(acc@) + placed(
                document(chunk@),
                offset as int,
                duration as int,
            ));
        }
        return ;
    }
    let room = duration - offset;
    let ghost all = document(chunk@);
    let ghost before = document(acc@);
    let n = chunk.len();
    let mut i: usize = 0;
    while i < n
        invariant
            i <= n == chunk@.len(),
            offset <= duration,
            room == duration - offset,
            all == document(chunk@),
            document(acc@) == before + placed(all.take(i as int), offset as int, duration as int),
        decreases n - i,
    {
        let ghost sofar = document(acc@);
        assert(all.take(i + 1).drop_last() == all.take(i as int));
        assert(all.take(i + 1).last() == chunk@[i as int]@);
        if chunk[i].start_time < room {
            let mut c = chunk[i].clone();
            c.start_time = c.start_time + offset;
            c.end_time = if c.end_time > room {
                duration
            } else {
                c.end_time + offset
            };
            assert(c@ == place(chunk@[i as int]@, offset as int, duration as int));
            acc.push(c);
            assert(document(acc@) =~= sofar.push(c@));
            assert(document(acc@) =~= before + placed(
                all.take(i + 1),
                offset as int,
                duration as int,
            ));
        }
        i += 1;
    }
    assert(all.take(n as int) == all);
}

/// Whether the start times of `doc` never decrease along the document.
pub open spec fn starts_ascend(doc: Seq<ClipView>) -> bool {
    forall|i: int, j: int| 0 <= i <= j < doc.len() ==> doc[i].start_time <= doc[j].start_time
}

/// Whether every clip of `doc` starts at `low` or later, and at `high` or
/// earlier.
pub open spec fn starts_within(doc: Seq<ClipView>, low: int, high: int) -> bool {
    forall|i: int| 0 <= i < doc.len() ==> low <= (#[trigger] doc[i]).start_time <= high
}

/// Whether every clip of `doc` starts before `duration` and ends at
/// `duration` or earlier.
pub open spec fn inside_audio(doc: Seq<ClipView>, duration: int) -> bool {
    forall|i: int|
        0 <= i < doc.len() ==> (#[trigger] doc[i]).start_time < duration && doc[i].end_time
            <= duration
}

/// Placing moves the bounds of the start times by the offset, keeps the
/// clips inside the audio, and keeps ascending start times ascending.
pub proof fn lemma_placed(chunk: Seq<ClipView>, offset: int, duration: int, low: int, high: int)
    requires
        starts_within(chunk, low, high),
    ensures
        starts_within(placed(chunk, offset, duration), low + offset, high + offset),
        inside_audio(placed(chunk, offset, duration), duration),
        starts_ascend(chunk) ==> starts_ascend(placed(chunk, offset, duration)),
    decreases chunk.len(),
{
    if chunk.len() > 0 {
        let init = chunk.drop_last();
        let last = chunk.last();
        assert(starts_within(init, low, high)) by {
            assert forall|i: int| 0 <= i < init.len() implies low <= (
            #[trigger] init[i]).start_time <= high by {
                assert(init[i] == chunk[i]);
            }
        }
        lemma_placed(init, offset, duration, low, high);
        if starts_ascend(chunk) {
            assert(starts_ascend(init)) by {
                assert forall|i: int, j: int| 0 <= i <= j < init.len() implies init[i].start_time
                    <= init[j].start_time by {
                    assert(init[i] == chunk[i] && init[j] == chunk[j]);
                }
            }
            assert(starts_within(init, low, last.start_time)) by {
                assert forall|i: int| 0 <= i < init.len() implies low <= (
                #[trigger] init[i]).start_time <= last.start_time by {
                    assert(init[i] == chunk[i]);
                    assert(chunk[i].start_time <= chunk[chunk.len() - 1].start_time);
                }
            }
            lemma_placed(init, offset, duration, low, last.start_time);
        }
    }
}

/// Whatever the start times, placed clips lie inside the audio.
pub proof fn lemma_placed_inside(chunk: Seq<ClipView>, offset: int, duration: int)
    ensures
        inside_audio(placed(chunk, offset, duration), duration),
    decreases chunk.len(),
{
    if chunk.len() > 0 {
        lemma_placed_inside(chunk.drop_last(), offset, duration);
    }
}

/// Every clip of a stitched document starts before the audio ends, and
/// ends with it at the latest.
pub proof fn law_stitched_inside_audio(chunks: Seq<Seq<ClipView>>, window: int, duration: int)
    ensures
        inside_audio(stitched(chunks, window, duration), duration),
    decreases chunks.len(),
{
    if chunks.len() > 0 {
        law_stitched_inside_audio(chunks.drop_last(), window, duration);
        lemma_placed_inside(chunks.last(), chunk_start(chunks.len() - 1, window), duration);
    }
}

/// Whether no clip of any window result starts before 0, as is true of
/// the view of every clip.
pub open spec fn starts_from_zero(chunks: Seq<Seq<ClipView>>) -> bool {
    forall|c: int, i: int|
        0 <= c < chunks.len() && 0 <= i < chunks[c].len() ==> 0 <= (
        #[trigger] chunks[c][i]).start_time
}

/// The document is laid out in window order: the document of the first
/// `k` windows is a prefix of the whole, and every clip behind that prefix
/// starts at the start of window `k` or later.
pub proof fn law_stitched_in_chunk_order(
    chunks: Seq<Seq<ClipView>>,
    window: int,
    duration: int,
    k: int,
)
    requires
        window >= 0,
        0 <= k <= chunks.len(),
        starts_from_zero(chunks),
    ensures
        stitched(chunks.take(k), window, duration).is_prefix_of(
            stitched(chunks, window, duration),
        ),
        forall|i: int|
            stitched(chunks.take(k), window, duration).len() <= i < stitched(
                chunks,
                window,
                duration,
            ).len() ==> (#[trigger] stitched(chunks, window, duration)[i]).start_time
                >= chunk_start(k, window),
    decreases chunks.len(),
{
    if k == chunks.len() {
        assert(chunks.take(k) == chunks);
    } else {
        let init = chunks.drop_last();
        let last = chunks.last();
        let offset = chunk_start(chunks.len() - 1, window);
        assert(init.take(k) == chunks.take(k));
        assert(starts_from_zero(init)) by {
            assert forall|c: int, i: int| 0 <= c < init.len() && 0 <= i < init[c].len() implies 0
                <= (#[trigger] init[c][i]).start_time by {
                assert(init[c] == chunks[c]);
            }
        }
        law_stitched_in_chunk_order(init, window, duration, k);
        assert forall|i: int| 0 <= i < last.len() implies 0 <= (#[trigger] last[i]).start_time by {
            assert(last == chunks[chunks.len() - 1]);
        }
        lemma_placed_floor(last, offset, duration);
        assert(offset >= chunk_start(k, window)) by (nonlinear_arith)
            requires
                window >= 0,
                k <= chunks.len() - 1,
                offset == (chunks.len() - 1) * window,
        ;
    }
}

/// Placed clips of a window whose clips start at 0 or later start at the
/// window's offset or later.
pub proof fn lemma_placed_floor(chunk: Seq<ClipView>, offset: int, duration: int)
    requires
        forall|i: int| 0 <= i < chunk.len() ==> 0 <= (#[trigger] chunk[i]).start_time,
    ensures
        forall|i: int|
            0 <= i < placed(chunk, offset, duration).len() ==> (#[trigger] placed(
                chunk,
                offset,
                duration,
            )[i]).start_time >= offset,
    decreases chunk.len(),
{
    if chunk.len() > 0 {
        let init = chunk.drop_last();
        assert forall|i: int| 0 <= i < init.len() implies 0 <= (#[trigger] init[i]).start_time by {
            assert(init[i] == chunk[i]);
        }
        lemma_placed_floor(init, offset, duration);
        let last = chunk[chunk.len() - 1];
        assert(0 <= last.start_time);
        let p = placed(chunk, offset, duration);
        assert forall|i: int| 0 <= i < p.len() implies (#[trigger] p[i]).start_time >= offset by {
            if i < placed(init, offset, duration).len() {
                assert(p[i] == placed(init, offset, duration)[i]);
            } else {
                assert(p[i] == place(last, offset, duration));
            }
        }
    }
}

/// Whether each window result is timed as the service should time it:
/// start times ascend, none before 0 and none behind the window's length.
pub open spec fn locally_timed(chunks: Seq<Seq<ClipView>>, window: int) -> bool {
    forall|c: int|
        0 <= c < chunks.len() ==> starts_ascend(#[trigger] chunks[c]) && starts_within(
            chunks[c],
            0,
            window,
        )
}

/// Where each window result is timed as it should be, the start times of
/// the stitched document never decrease, and none lies behind the end of
/// the last window.
pub proof fn law_stitched_ascends(chunks: Seq<Seq<ClipView>>, window: int, duration: int)
    requires
        window >= 0,
        locally_timed(chunks, window),
    ensures
        starts_ascend(stitched(chunks, window, duration)),
        starts_within(stitched(chunks, window, duration), 0, chunk_start(chunks.len() as int, window)),
    decreases chunks.len(),
{
    if chunks.len() > 0 {
        let init = chunks.drop_last();
        let last = chunks.last();
        let offset = chunk_start(chunks.len() - 1, window);
        assert(locally_timed(init, window)) by {
            assert forall|c: int| 0 <= c < init.len() implies starts_ascend(#[trigger] init[c])
                && starts_within(init[c], 0, window) by {
                assert(init[c] == chunks[c]);
            }
        }
        law_stitched_ascends(init, window, duration);
        assert(last == chunks[chunks.len() - 1]);
        lemma_placed(last, offset, duration, 0, window);
        assert(offset + window == chunk_start(chunks.len() as int, window)) by (nonlinear_arith)
            requires
                offset == (chunks.len() - 1) * window,
        ;
        assert(0 <= offset) by (nonlinear_arith)
            requires
                offset == (chunks.len() - 1) * window,
                window >= 0,
                chunks.len() >= 1,
        ;
        let a = stitched(init, window, duration);
        let b = placed(last, offset, duration);
        assert(chunk_start(init.len() as int, window) == offset);
        assert forall|i: int, j: int| 0 <= i <= j < (a + b).len() implies (a + b)[i].start_time
            <= (a + b)[j].start_time by {
            if j < a.len() {
            } else if i >= a.len() {
                assert((a + b)[i] == b[i - a.len()]);
                assert((a + b)[j] == b[j - a.len()]);
            } else {
                assert((a + b)[i] == a[i]);
                assert((a + b)[j] == b[j - a.len()]);
            }
        }
        assert forall|i: int| 0 <= i < (a + b).len() implies 0 <= (
        #[trigger] (a + b)[i]).start_time <= offset + window by {
            if i < a.len() {
                assert((a + b)[i] == a[i]);
            } else {
                assert((a + b)[i] == b[i - a.len()]);
            }
        }
    }
}

} // verus!
