//! Chunked ingestion as a machine that is driven from outside: the audio
//! is cut into windows of fixed length, each window is transcribed on its
//! own, and the results are stitched into one document.

use vstd::prelude::*;
use crate::clip::{Clip, ClipView, document};
use crate::error::Error;
use crate::stitch::{
    chunk_count, chunk_length, chunk_start, inside_audio, law_stitched_inside_audio,
    lemma_chunk_start_in_range, num_chunks, place_chunk, stitched,
};

verus! {

/// Where an ingestion stands: what it has asked for and waits to hear of.
#[derive(PartialEq, Eq, Clone, Copy, Debug, Structural)]
pub enum Phase {
    AwaitingCache,
    AwaitingCachedDuration,
    AwaitingDuration,
    AwaitingChunk,
    Finished,
    Failed,
}

/// What the outside reports back to an ingestion.
#[derive(Debug)]
pub enum IngestEvent {
    CacheMiss,
    CacheHit(Vec<Clip>),
    DurationProbed(u64),
    DurationUnavailable,
    ExtractionFailed,
    TranscriptionFailed(String),
    Transcribed(Vec<Clip>),
}

/// What an ingestion asks the outside to do next, or how it ended.
#[derive(Debug)]
pub enum IngestAction {
    LookupCache,
    ProbeDuration,
    TranscribeWindow { index: u64, of: u64, start: u64, length: u64 },
    Complete { clips: Vec<Clip>, duration: u64, store_in_cache: bool },
    Fail(Error),
    Ignore,
}

/// One run of the ingestion pipeline, as a machine that is driven from
/// outside: each step takes what the last action brought and answers with
/// the next action.
pub struct Ingestion {
    window: u64,
    caching: bool,
    phase: Phase,
    duration: u64,
    next: u64,
    count: u64,
    clips: Vec<Clip>,
    received: Ghost<Seq<Seq<ClipView>>>,
}

impl Ingestion {
    #[verifier::type_invariant]
    spec fn consistent(&self) -> bool {
        &&& self.window > 0
        &&& self.phase == Phase::AwaitingChunk ==> {
            &&& self.duration > 0
            &&& self.count == chunk_count(self.duration as int, self.window as int)
            &&& self.next < self.count
            &&& self.received@.len() == self.next
            &&& document(self.clips@) == stitched(
                self.received@,
                self.window as int,
                self.duration as int,
            )
        }
    }

    /// The window length.
    pub closed spec fn window(&self) -> u64 {
        self.window
    }

    /// Whether the cache is consulted before anything else.
    pub closed spec fn caching(&self) -> bool {
        self.caching
    }

    /// Where the ingestion stands.
    pub closed spec fn phase(&self) -> Phase {
        self.phase
    }

    /// The duration of the audio, once probed.
    pub closed spec fn duration(&self) -> u64 {
        self.duration
    }

    /// The index of the window whose transcript is awaited.
    pub closed spec fn next_chunk(&self) -> u64 {
        self.next
    }

    /// The window results taken so far, in window order.
    pub closed spec fn received(&self) -> Seq<Seq<ClipView>> {
        self.received@
    }

    /// The clips held: those of the cache after a hit, else the document
    /// stitched so far.
    pub closed spec fn held(&self) -> Seq<ClipView> {
        document(self.clips@)
    }

    /// Where the ingestion stands.
    pub fn current_phase(&self) -> (p: Phase)
        ensures
            p == self.phase(),
    {
        self.phase
    }

    /// Begins an ingestion with windows of `window` milliseconds, and says
    /// what to do first: look into the cache where `caching` is on, else
    /// probe the duration. A window of length 0 covers nothing: no
    /// ingestion begins.
    pub fn start(window: u64, caching: bool) -> (r: Option<(Ingestion, IngestAction)>)
        ensures
            window == 0 <==> r is None,
            r matches Some((machine, action)) ==> {
                &&& machine.window() == window
                &&& machine.caching() == caching
                &&& machine.received().len() == 0
                &&& machine.held().len() == 0
                &&& caching ==> machine.phase() == Phase::AwaitingCache && action is LookupCache
                &&& !caching ==> machine.phase() == Phase::AwaitingDuration
                    && action is ProbeDuration
            },
    {
        if window == 0 {
            return None;
        }
        let machine = Ingestion {
            window,
            caching,
            phase: if caching {
                Phase::AwaitingCache
            } else {
                Phase::AwaitingDuration
            },
            duration: 0,
            next: 0,
            count: 0,
            clips: Vec::new(),
            received: Ghost(Seq::empty()),
        };
        let action = if caching {
            IngestAction::LookupCache
        } else {
            IngestAction::ProbeDuration
        };
        Some((machine, action))
    }
}

/// Whether `action` asks for the transcript of window `index` of an audio
/// of `duration` cut into windows of `window`.
pub open spec fn asks_for_window(action: IngestAction, index: int, duration: int, window: int) -> bool {
    action matches IngestAction::TranscribeWindow { index: i, of, start, length } && i == index
        && of == chunk_count(duration, window) && start == chunk_start(index, window) && length
        == chunk_length(index, duration, window)
}

/// Whether an ingestion that was `pre` and took `event` is `post`
/// afterwards and answers `action`.
pub open spec fn steps_to(
    pre: Ingestion,
    event: IngestEvent,
    post: Ingestion,
    action: IngestAction,
) -> bool {
    let window = pre.window() as int;
    &&& post.window() == pre.window()
    &&& post.caching() == pre.caching()
    &&& match (pre.phase(), event) {
        (Phase::AwaitingCache, IngestEvent::CacheHit(clips)) => {
            &&& post.phase() == Phase::AwaitingCachedDuration
            &&& post.held() == document(clips@)
            &&& action is ProbeDuration
        },
        (Phase::AwaitingCache, IngestEvent::CacheMiss) => {
            &&& post.phase() == Phase::AwaitingDuration
            &&& action is ProbeDuration
        },
        (Phase::AwaitingCachedDuration, IngestEvent::DurationProbed(d)) => {
            &&& post.phase() == Phase::Finished
            &&& action matches IngestAction::Complete { clips, duration, store_in_cache }
                && document(clips@) == pre.held() && duration == d && !store_in_cache
        },
        (Phase::AwaitingCachedDuration, IngestEvent::DurationUnavailable) => {
            &&& post.phase() == Phase::Finished
            &&& action matches IngestAction::Complete { clips, duration, store_in_cache }
                && document(clips@) == pre.held() && duration == 0 && !store_in_cache
        },
        (Phase::AwaitingDuration, IngestEvent::DurationProbed(d)) => if d == 0 {
            &&& post.phase() == Phase::Failed
            &&& action == IngestAction::Fail(Error::DurationUnavailable)
        } else {
            &&& post.phase() == Phase::AwaitingChunk
            &&& post.duration() == d
            &&& post.next_chunk() == 0
            &&& post.received().len() == 0
            &&& asks_for_window(action, 0, d as int, window)
        },
        (Phase::AwaitingDuration, IngestEvent::DurationUnavailable) => {
            &&& post.phase() == Phase::Failed
            &&& action == IngestAction::Fail(Error::DurationUnavailable)
        },
        (Phase::AwaitingChunk, IngestEvent::ExtractionFailed) => {
            &&& post.phase() == Phase::Failed
            &&& action == IngestAction::Fail(Error::ChunkExtractionFailed(pre.next_chunk()))
        },
        (Phase::AwaitingChunk, IngestEvent::TranscriptionFailed(detail)) => {
            &&& post.phase() == Phase::Failed
            &&& action matches IngestAction::Fail(Error::TranscriptionFailed(index, text))
                && index == pre.next_chunk() && text@ == detail@
        },
        (Phase::AwaitingChunk, IngestEvent::Transcribed(clips)) => {
            let duration = pre.duration() as int;
            let received = pre.received().push(document(clips@));
            if pre.next_chunk() + 1 < chunk_count(duration, window) {
                &&& post.phase() == Phase::AwaitingChunk
                &&& post.duration() == pre.duration()
                &&& post.next_chunk() == pre.next_chunk() + 1
                &&& post.received() == received
                &&& asks_for_window(action, pre.next_chunk() + 1, duration, window)
            } else {
                &&& post.phase() == Phase::Finished
                &&& action matches IngestAction::Complete { clips: all, duration: d, store_in_cache }
                    && document(all@) == stitched(received, window, duration) && d
                    == pre.duration() && store_in_cache
            }
        },
        _ => {
            &&& post.phase() == pre.phase()
            &&& post.duration() == pre.duration()
            &&& post.next_chunk() == pre.next_chunk()
            &&& post.received() == pre.received()
            &&& post.held() == pre.held()
            &&& action is Ignore
        },
    }
}

/// A cache hit ends the ingestion with the cached clips, unchanged, as
/// soon as the duration is known: neither step asks for a transcript, and
/// nothing is written back to the cache.
pub proof fn law_cache_hit_skips_transcription(
    pre: Ingestion,
    cached: Vec<Clip>,
    mid: Ingestion,
    first: IngestAction,
    probed: IngestEvent,
    post: Ingestion,
    second: IngestAction,
)
    requires
        pre.phase() == Phase::AwaitingCache,
        steps_to(pre, IngestEvent::CacheHit(cached), mid, first),
        probed is DurationProbed || probed is DurationUnavailable,
        steps_to(mid, probed, post, second),
    ensures
        first is ProbeDuration,
        post.phase() == Phase::Finished,
        second matches IngestAction::Complete { clips, duration, store_in_cache } && document(
            clips@,
        ) == document(cached@) && !store_in_cache,
{
}

/// The document that an ingestion hands out after its last window lies
/// inside the audio: every clip starts before the audio ends and ends
/// with it at the latest.
pub proof fn law_completed_document_inside_audio(
    pre: Ingestion,
    event: IngestEvent,
    post: Ingestion,
    action: IngestAction,
)
    requires
        pre.phase() == Phase::AwaitingChunk,
        steps_to(pre, event, post, action),
    ensures
        action matches IngestAction::Complete { clips, duration, store_in_cache } ==> inside_audio(
            document(clips@),
            duration as int,
        ),
{
    if let IngestEvent::Transcribed(chunk) = event {
        law_stitched_inside_audio(
            pre.received().push(document(chunk@)),
            pre.window() as int,
            pre.duration() as int,
        );
    }
}

/// The documents of the window results `chunks`.
pub open spec fn chunk_documents(chunks: Seq<Vec<Clip>>) -> Seq<Seq<ClipView>> {
    Seq::new(chunks.len(), |i: int| document(chunks[i]@))
}

/// Whether `states` and `actions` are the course of an ingestion that
/// takes the window results `chunks` one after the other: `states[i]` is
/// the ingestion before result `i`, `actions[i]` its answer to it.
pub open spec fn takes_in_turn(
    states: Seq<Ingestion>,
    actions: Seq<IngestAction>,
    chunks: Seq<Vec<Clip>>,
) -> bool {
    &&& states.len() == chunks.len() + 1
    &&& actions.len() == chunks.len()
    &&& forall|i: int|
        0 <= i < chunks.len() ==> steps_to(
            states[i],
            IngestEvent::Transcribed(chunks[i]),
            states[i + 1],
            #[trigger] actions[i],
        )
}

/// Before it takes result `k`, an ingestion that has taken the results
/// before it in turn awaits window `k` and holds those results.
proof fn lemma_course(
    states: Seq<Ingestion>,
    actions: Seq<IngestAction>,
    chunks: Seq<Vec<Clip>>,
    k: int,
)
    requires
        takes_in_turn(states, actions, chunks),
        states[0].phase() == Phase::AwaitingChunk,
        states[0].next_chunk() == 0,
        states[0].received().len() == 0,
        chunks.len() == chunk_count(states[0].duration() as int, states[0].window() as int),
        0 <= k < chunks.len(),
    ensures
        states[k].phase() == Phase::AwaitingChunk,
        states[k].next_chunk() == k,
        states[k].duration() == states[0].duration(),
        states[k].window() == states[0].window(),
        states[k].received() == chunk_documents(chunks).take(k),
    decreases k,
{
    if k == 0 {
        assert(states[0].received() =~= chunk_documents(chunks).take(0));
    } else {
        lemma_course(states, actions, chunks, k - 1);
        assert(steps_to(
            states[k - 1],
            IngestEvent::Transcribed(chunks[k - 1]),
            states[k],
            actions[k - 1],
        ));
        assert(chunk_documents(chunks).take(k - 1).push(document(chunks[k - 1]@))
            =~= chunk_documents(chunks).take(k));
    }
}

/// An ingestion that awaits the first of its `chunk_count` windows and
/// takes their results in turn asks for each further window in order, and
/// answers the last result with the document stitched from all of them,
/// which lies inside the audio and is to be stored in the cache.
pub proof fn law_ingestion_stitches_all_windows(
    states: Seq<Ingestion>,
    actions: Seq<IngestAction>,
    chunks: Seq<Vec<Clip>>,
)
    requires
        takes_in_turn(states, actions, chunks),
        states[0].phase() == Phase::AwaitingChunk,
        states[0].next_chunk() == 0,
        states[0].received().len() == 0,
        chunks.len() == chunk_count(states[0].duration() as int, states[0].window() as int),
        chunks.len() > 0,
    ensures
        forall|i: int|
            0 <= i < chunks.len() - 1 ==> asks_for_window(
                #[trigger] actions[i],
                i + 1,
                states[0].duration() as int,
                states[0].window() as int,
            ),
        actions.last() matches IngestAction::Complete { clips, duration, store_in_cache } && {
            &&& document(clips@) == stitched(
                chunk_documents(chunks),
                states[0].window() as int,
                states[0].duration() as int,
            )
            &&& inside_audio(document(clips@), duration as int)
            &&& duration == states[0].duration()
            &&& store_in_cache
        },
{
    let n = chunks.len() as int;
    assert forall|i: int| 0 <= i < n - 1 implies asks_for_window(
        #[trigger] actions[i],
        i + 1,
        states[0].duration() as int,
        states[0].window() as int,
    ) by {
        lemma_course(states, actions, chunks, i);
        assert(steps_to(states[i], IngestEvent::Transcribed(chunks[i]), states[i + 1], actions[i]));
    }
    lemma_course(states, actions, chunks, n - 1);
    assert(steps_to(
        states[n - 1],
        IngestEvent::Transcribed(chunks[n - 1]),
        states[n],
        actions[n - 1],
    ));
    assert(chunk_documents(chunks).take(n - 1).push(document(chunks[n - 1]@)) =~= chunk_documents(
        chunks,
    ));
    law_stitched_inside_audio(
        chunk_documents(chunks),
        states[0].window() as int,
        states[0].duration() as int,
    );
}

/// The request for the transcript of window `index`.
fn window_action(index: u64, count: u64, duration: u64, window: u64) -> (action: IngestAction)
    requires
        window > 0,
        duration > 0,
        count == chunk_count(duration as int, window as int),
        index < count,
    ensures
        asks_for_window(action, index as int, duration as int, window as int),
{
    proof {
        lemma_chunk_start_in_range(index as int, duration as int, window as int);
        assert(chunk_start(index + 1, window as int) == chunk_start(index as int, window as int)
            + window) by (nonlinear_arith);
    }
    let start = index * window;
    let left = duration - start;
    let length = if window < left {
        window
    } else {
        left
    };
    IngestAction::TranscribeWindow { index, of: count, start, length }
}

impl Ingestion {
    /// Takes what the last action brought and answers with the next
    /// action. A cache hit ends the ingestion with the cached clips once
    /// the duration is probed, and asks for no transcript. Without a hit
    /// the windows are transcribed in order; each result is placed on the
    /// timeline as it arrives; the first failure ends the ingestion with
    /// its error; after the last window the stitched document is handed
    /// out, to be stored in the cache. An event that the phase does not
    /// wait for is ignored.
    pub fn step(self, event: IngestEvent) -> (r: (Ingestion, IngestAction))
        ensures
            steps_to(self, event, r.0, r.1),
    {
        proof {
            use_type_invariant(&self);
        }
        let Ingestion { window, caching, phase, duration, next, count, clips, received } = self;
        match (phase, event) {
            (Phase::AwaitingCache, IngestEvent::CacheHit(cached)) => {
                let machine = Ingestion {
                    window,
                    caching,
                    phase: Phase::AwaitingCachedDuration,
                    duration,
                    next,
                    count,
                    clips: cached,
                    received,
                };
                (machine, IngestAction::ProbeDuration)
            },
            (Phase::AwaitingCache, IngestEvent::CacheMiss) => {
                let machine = Ingestion {
                    window,
                    caching,
                    phase: Phase::AwaitingDuration,
                    duration,
                    next,
                    count,
                    clips,
                    received,
                };
                (machine, IngestAction::ProbeDuration)
            },
            (Phase::AwaitingCachedDuration, IngestEvent::DurationProbed(d)) => {
                let machine = Ingestion {
                    window,
                    caching,
                    phase: Phase::Finished,
                    duration: d,
                    next,
                    count,
                    clips: Vec::new(),
                    received,
                };
                (machine, IngestAction::Complete { clips, duration: d, store_in_cache: false })
            },
            (Phase::AwaitingCachedDuration, IngestEvent::DurationUnavailable) => {
                let machine = Ingestion {
                    window,
                    caching,
                    phase: Phase::Finished,
                    duration: 0,
                    next,
                    count,
                    clips: Vec::new(),
                    received,
                };
                (machine, IngestAction::Complete { clips, duration: 0, store_in_cache: false })
            },
            (Phase::AwaitingDuration, IngestEvent::DurationProbed(d)) => {
                if d == 0 {
                    let machine = Ingestion {
                        window,
                        caching,
                        phase: Phase::Failed,
                        duration,
                        next,
                        count,
                        clips,
                        received,
                    };
                    (machine, IngestAction::Fail(Error::DurationUnavailable))
                } else {
                    let total = num_chunks(d, window);
                    proof {
                        lemma_chunk_start_in_range(0, d as int, window as int);
                        assert(chunk_start(0, window as int) == 0) by (nonlinear_arith);
                        assert(total > 0);
                    }
                    let action = window_action(0, total, d, window);
                    let fresh: Vec<Clip> = Vec::new();
                    assert(document(fresh@) =~= stitched(
                        Seq::<Seq<ClipView>>::empty(),
                        window as int,
                        d as int,
                    ));
                    let machine = Ingestion {
                        window,
                        caching,
                        phase: Phase::AwaitingChunk,
                        duration: d,
                        next: 0,
                        count: total,
                        clips: fresh,
                        received: Ghost(Seq::empty()),
                    };
                    (machine, action)
                }
            },
            (Phase::AwaitingDuration, IngestEvent::DurationUnavailable) => {
                let machine = Ingestion {
                    window,
                    caching,
                    phase: Phase::Failed,
                    duration,
                    next,
                    count,
                    clips,
                    received,
                };
                (machine, IngestAction::Fail(Error::DurationUnavailable))
            },
            (Phase::AwaitingChunk, IngestEvent::ExtractionFailed) => {
                let machine = Ingestion {
                    window,
                    caching,
                    phase: Phase::Failed,
                    duration,
                    next,
                    count,
                    clips: Vec::new(),
                    received,
                };
                (machine, IngestAction::Fail(Error::ChunkExtractionFailed(next)))
            },
            (Phase::AwaitingChunk, IngestEvent::TranscriptionFailed(detail)) => {
                let machine = Ingestion {
                    window,
                    caching,
                    phase: Phase::Failed,
                    duration,
                    next,
                    count,
                    clips: Vec::new(),
                    received,
                };
                (machine, IngestAction::Fail(Error::TranscriptionFailed(next, detail)))
            },
            (Phase::AwaitingChunk, IngestEvent::Transcribed(chunk)) => {
                let ghost taken = received@.push(document(chunk@));
                proof {
                    lemma_chunk_start_in_range(next as int, duration as int, window as int);
                    assert(taken.drop_last() =~= received@);
                }
                let mut clips = clips;
                place_chunk(&mut clips, chunk, next * window, duration);
                if next + 1 < count {
                    let action = window_action(next + 1, count, duration, window);
                    let machine = Ingestion {
                        window,
                        caching,
                        phase: Phase::AwaitingChunk,
                        duration,
                        next: next + 1,
                        count,
                        clips,
                        received: Ghost(taken),
                    };
                    (machine, action)
                } else {
                    let machine = Ingestion {
                        window,
                        caching,
                        phase: Phase::Finished,
                        duration,
                        next,
                        count,
                        clips: Vec::new(),
                        received: Ghost(taken),
                    };
                    (machine, IngestAction::Complete { clips, duration, store_in_cache: true })
                }
            },
            (_, _) => {
                let machine = Ingestion {
                    window,
                    caching,
                    phase,
                    duration,
                    next,
                    count,
                    clips,
                    received,
                };
                (machine, IngestAction::Ignore)
            },
        }
    }
}

} // verus!
