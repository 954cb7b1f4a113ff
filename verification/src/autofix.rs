//! Boundary correction: the manual move of leading words of the next clip
//! to the clip under the cursor, and the automatic repetition of the learned
//! move over every pair of clips that the user has not touched.

use vstd::prelude::*;
use crate::app::{App, Mode, Status};
use crate::clip::ClipView;
use crate::error::Error;
use crate::stats::{deviation_hundredths, is_consistent, rounded_mean};
use crate::store::{
    all_words, clamped, flag_pair, law_prune_keeps_words, law_shift_keeps_words,
    lemma_all_words_by_transcripts, shift_words, without_blank,
};
use crate::text::{word_count, words};

verus! {

/// The number of samples from which the pattern counts as learned.
pub const SAMPLES_FOR_PATTERN: usize = 3;

/// Whether the session has a clip after the one under the cursor.
pub open spec fn has_next_clip(app: App) -> bool {
    app.store.current_index + 1 < app.store.doc().len()
}

/// How `post`, the session after `enter_adjust_mode`, relates to `pre`, the
/// session before.
pub open spec fn enter_adjust_mode_post(pre: App, post: App) -> bool {
    &&& has_next_clip(pre) ==> post == (App {
        mode: Mode::Adjust,
        adjust_word_index: 0,
        status: Status::AdjustHelp,
        ..pre
    })
    &&& !has_next_clip(pre) ==> post == (App {
        status: Status::CannotAdjustLastClip,
        ..pre
    })
}

/// Enters adjust mode on the clip under the cursor and its successor, with
/// the word cursor on the first word. On the last clip, or without clips,
/// only the status changes: it says that the clip cannot be adjusted.
pub fn enter_adjust_mode(app: &mut App)
    ensures
        enter_adjust_mode_post(*old(app), *final(app)),
{
    let n = app.store.len();
    if app.store.current_index < n && app.store.current_index + 1 < n {
        app.mode = Mode::Adjust;
        app.adjust_word_index = 0;
        app.status = Status::AdjustHelp;
    } else {
        app.status = Status::CannotAdjustLastClip;
    }
}

/// How `post`, the session after `adjust_next_word`, relates to `pre`, the
/// session before.
pub open spec fn adjust_next_word_post(pre: App, post: App) -> bool {
    &&& post == (App {
        adjust_word_index: if has_next_clip(pre) && pre.adjust_word_index + 1
            < words(
            pre.store.doc()[pre.store.current_index + 1].transcript,
        ).len() {
            (pre.adjust_word_index + 1) as usize
        } else {
            pre.adjust_word_index
        },
        ..pre
    })
}

/// Moves the word cursor one word on in the next clip; on its last word,
/// or without a next clip, nothing changes.
pub fn adjust_next_word(app: &mut App)
    ensures
        adjust_next_word_post(*old(app), *final(app)),
{
    let n = app.store.len();
    if app.store.current_index < n && app.store.current_index + 1 < n {
        let count = word_count(app.store.clips[app.store.current_index + 1].transcript.as_str());
        if app.adjust_word_index < count && app.adjust_word_index + 1 < count {
            app.adjust_word_index = app.adjust_word_index + 1;
        }
    }
}

/// How `post`, the session after `adjust_previous_word`, relates to `pre`, the
/// session before.
pub open spec fn adjust_previous_word_post(pre: App, post: App) -> bool {
    &&& post == (App {
        adjust_word_index: if pre.adjust_word_index > 0 {
            (pre.adjust_word_index - 1) as usize
        } else {
            0
        },
        ..pre
    })
}

/// Moves the word cursor one word back; on the first word it stays.
pub fn adjust_previous_word(app: &mut App)
    ensures
        adjust_previous_word_post(*old(app), *final(app)),
{
    if app.adjust_word_index > 0 {
        app.adjust_word_index = app.adjust_word_index - 1;
    }
}

/// What the status says after a confirmed correction, by the number of
/// samples then recorded.
pub open spec fn learning_status(samples: nat) -> Status {
    if samples < SAMPLES_FOR_PATTERN {
        Status::AdjustmentLearned { more_needed: (SAMPLES_FOR_PATTERN - samples) as usize }
    } else {
        Status::PatternLearned
    }
}

/// The document after a confirmed correction with the word cursor on word
/// `k` of clip `index + 1`: the words up to and including that word moved
/// to clip `index`, and both clips marked as manually adjusted. A word
/// cursor beyond the words leaves the document as it is.
pub open spec fn corrected(doc: Seq<ClipView>, index: int, k: int) -> Seq<ClipView>
    recommends
        0 <= index,
        index + 1 < doc.len(),
        0 <= k,
{
    if k < words(doc[index + 1].transcript).len() {
        flag_pair(shift_words(doc, index, k + 1), index)
    } else {
        doc
    }
}

/// A confirmed correction loses no word of the document, adds none and
/// keeps their order.
pub proof fn law_correction_keeps_words(doc: Seq<ClipView>, index: int, k: int)
    requires
        0 <= index,
        index + 1 < doc.len(),
        0 <= k,
    ensures
        all_words(corrected(doc, index, k)) == all_words(doc),
{
    if k < words(doc[index + 1].transcript).len() {
        law_shift_keeps_words(doc, index, k + 1);
        lemma_all_words_by_transcripts(corrected(doc, index, k), shift_words(doc, index, k + 1));
    }
}

/// How `post`, the session after `confirm_adjustment`, relates to `pre`, the
/// session before.
pub open spec fn confirm_adjustment_post(pre: App, post: App) -> bool {
    &&& !has_next_clip(pre) ==> post == (App { mode: Mode::Normal, ..pre })
    &&& has_next_clip(pre) ==> {
        let index = pre.store.current_index as int;
        let k = pre.adjust_word_index as int;
        let moved = k < words(pre.store.doc()[index + 1].transcript).len();
        &&& post == (App {
            mode: Mode::Normal,
            store: post.store,
            history: post.history,
            adjustments: post.adjustments,
            status: learning_status(post.adjustments@.len()),
            ..pre
        })
        &&& post.timeline() == pre.timeline().edit(
            corrected(pre.store.doc(), index, k),
        )
        &&& post.store.current_index == pre.store.current_index
        &&& post.adjustments@ == if moved && pre.adjustments@.len()
            < crate::stats::MAX_SAMPLES && k + 1 <= u32::MAX {
            pre.adjustments@.push((k + 1) as u32)
        } else {
            pre.adjustments@
        }
    }
}

/// Confirms the correction that adjust mode has selected. With a next
/// clip: the document is checkpointed, the selected words move, both clips
/// are marked, the number of words moved is recorded as a sample where the
/// log takes it, and the status tells how far the pattern is learned. The
/// session is in normal mode afterwards in every case; without a next clip
/// nothing else changes.
pub fn confirm_adjustment(app: &mut App)
    ensures
        confirm_adjustment_post(*old(app), *final(app)),
{
    let n = app.store.len();
    let index = app.store.current_index;
    if index >= n || index + 1 >= n {
        app.mode = Mode::Normal;
        return ;
    }
    app.save_undo_state();
    let k = app.adjust_word_index;
    let count = word_count(app.store.clips[index + 1].transcript.as_str());
    if k < count {
        let done = app.store.move_words(index, k + 1);
        assert(done);
        app.store.flag_adjusted(index);
        app.adjustments.record(k + 1);
    }
    app.mode = Mode::Normal;
    let samples = app.adjustments.len();
    if samples < SAMPLES_FOR_PATTERN {
        app.status = Status::AdjustmentLearned { more_needed: SAMPLES_FOR_PATTERN - samples };
    } else {
        app.status = Status::PatternLearned;
    }
}

/// Whether automatic correction moves `m` words across the boundary
/// between clips `index` and `index + 1`: neither clip is manually
/// adjusted, and the second has more than `m` words.
pub open spec fn eligible(doc: Seq<ClipView>, index: int, m: int) -> bool
    recommends
        0 <= index,
        index + 1 < doc.len(),
{
    &&& !doc[index].is_manually_adjusted
    &&& !doc[index + 1].is_manually_adjusted
    &&& words(doc[index + 1].transcript).len() > m
}

/// The document after automatic correction has dealt with the pairs from
/// the last one down to the pair that starts at `from`.
pub open spec fn fixed_from(doc: Seq<ClipView>, m: int, from: int) -> Seq<ClipView>
    decreases doc.len() - from,
{
    if from < 0 || from + 1 >= doc.len() {
        doc
    } else {
        let later = fixed_from(doc, m, from + 1);
        if eligible(later, from, m) {
            shift_words(later, from, m)
        } else {
            later
        }
    }
}

/// The number of words that have moved once automatic correction has
/// dealt with the pairs from the last one down to the pair that starts at
/// `from`.
pub open spec fn moved_from(doc: Seq<ClipView>, m: int, from: int) -> int
    decreases doc.len() - from,
{
    if from < 0 || from + 1 >= doc.len() {
        0
    } else {
        let later = fixed_from(doc, m, from + 1);
        moved_from(doc, m, from + 1) + if eligible(later, from, m) {
            m
        } else {
            0
        }
    }
}

/// Automatic correction keeps the number of clips.
pub proof fn lemma_fixed_from_len(doc: Seq<ClipView>, m: int, from: int)
    ensures
        fixed_from(doc, m, from).len() == doc.len(),
    decreases doc.len() - from,
{
    if !(from < 0 || from + 1 >= doc.len()) {
        lemma_fixed_from_len(doc, m, from + 1);
    }
}

/// Automatic correction never changes whether a clip is manually adjusted.
pub proof fn lemma_fixed_from_keeps_flags(doc: Seq<ClipView>, m: int, from: int)
    ensures
        fixed_from(doc, m, from).len() == doc.len(),
        forall|i: int|
            0 <= i < doc.len() ==> (#[trigger] fixed_from(doc, m, from)[i]).is_manually_adjusted
                == doc[i].is_manually_adjusted,
    decreases doc.len() - from,
{
    if !(from < 0 || from + 1 >= doc.len()) {
        lemma_fixed_from_keeps_flags(doc, m, from + 1);
    }
}

/// Automatic correction leaves the transcript of every manually adjusted
/// clip as it was.
pub proof fn law_autofix_respects_manual(doc: Seq<ClipView>, m: int, from: int)
    ensures
        fixed_from(doc, m, from).len() == doc.len(),
        forall|i: int|
            0 <= i < doc.len() && doc[i].is_manually_adjusted ==> #[trigger] fixed_from(
                doc,
                m,
                from,
            )[i] == doc[i],
    decreases doc.len() - from,
{
    if !(from < 0 || from + 1 >= doc.len()) {
        law_autofix_respects_manual(doc, m, from + 1);
        lemma_fixed_from_keeps_flags(doc, m, from + 1);
    }
}

/// Automatic correction loses no word of the document, adds none and
/// keeps their order, also where it removes the clips left without text.
pub proof fn law_autofix_keeps_words(doc: Seq<ClipView>, m: int, from: int)
    requires
        0 <= m,
    ensures
        all_words(fixed_from(doc, m, from)) == all_words(doc),
        all_words(without_blank(fixed_from(doc, m, from))) == all_words(doc),
    decreases doc.len() - from,
{
    if !(from < 0 || from + 1 >= doc.len()) {
        law_autofix_keeps_words(doc, m, from + 1);
        lemma_fixed_from_len(doc, m, from + 1);
        let later = fixed_from(doc, m, from + 1);
        if eligible(later, from, m) {
            law_shift_keeps_words(later, from, m);
        }
    }
    law_prune_keeps_words(fixed_from(doc, m, from));
}

/// How `post`, the session after `autofix_transcripts`, relates to `pre`, the
/// session before.
pub open spec fn autofix_transcripts_post(pre: App, post: App) -> bool {
    &&& pre.adjustments@.len() == 0 ==> post == (App {
        status: Status::Refused(Error::InsufficientAdjustmentSamples),
        ..pre
    })
    &&& pre.adjustments@.len() > 0 && !is_consistent(pre.adjustments@) ==> post
        == (App {
        status: Status::Refused(
            Error::LowCorrectionConfidence(deviation_hundredths(pre.adjustments@) as u64),
        ),
        ..pre
    })
    &&& pre.adjustments@.len() > 0 && is_consistent(pre.adjustments@) ==> {
        let m = rounded_mean(pre.adjustments@);
        let doc = pre.store.doc();
        &&& post == (App {
            store: post.store,
            history: post.history,
            status: post.status,
            ..pre
        })
        &&& post.status matches Status::AutofixComplete { words_moved }
            && words_moved == moved_from(doc, m, 0)
        &&& post.timeline() == pre.timeline().edit(
            without_blank(fixed_from(doc, m, 0)),
        )
        &&& post.store.current_index == clamped(
            pre.store.current_index as int,
            without_blank(fixed_from(doc, m, 0)).len() as int,
        )
    }
}

/// Applies the learned correction to the whole document. Without a sample
/// the data is insufficient; with a population standard deviation of the
/// samples above one word the confidence is low: the status says so and
/// nothing else changes. Otherwise the document is checkpointed, the
/// rounded mean of the samples is moved across every eligible boundary,
/// from the last pair of clips to the first, clips left without text are
/// removed, the cursor is clamped, and the status reports the words moved.
pub fn autofix_transcripts(app: &mut App)
    ensures
        autofix_transcripts_post(*old(app), *final(app)),
{
    let m: usize = match app.adjustments.fit() {
        Ok(m) => m,
        Err(Error::InsufficientAdjustmentSamples) => {
            app.status = Status::Refused(Error::InsufficientAdjustmentSamples);
            return ;
        },
        Err(Error::LowCorrectionConfidence(d)) => {
            app.status = Status::Refused(Error::LowCorrectionConfidence(d));
            return ;
        },
        Err(_) => {
            return ;
        },
    };
    app.save_undo_state();
    let ghost doc = old(app).store.doc();
    let n = app.store.len();
    let mut total: u128 = 0;
    let mut i: usize = if n == 0 {
        0
    } else {
        n - 1
    };
    while i > 0
        invariant
            n == doc.len(),
            i < n || n == 0 && i == 0,
            m <= u32::MAX,
            app.store.doc() == fixed_from(doc, m as int, i as int),
            app.store.doc().len() == n,
            total == moved_from(doc, m as int, i as int),
            total <= (n - i) * u32::MAX,
            *app == (App { store: app.store, history: app.history, ..*old(app) }),
            app.store.current_index == old(app).store.current_index,
            app.timeline().undo == old(app).timeline().checkpoint().undo,
            app.timeline().redo == old(app).timeline().checkpoint().redo,
        decreases i,
    {
        i = i - 1;
        let eligible_pair = !app.store.clips[i].is_manually_adjusted && !app.store.clips[i
            + 1].is_manually_adjusted && word_count(app.store.clips[i + 1].transcript.as_str())
            > m;
        assert(eligible_pair == eligible(app.store.doc(), i as int, m as int));
        if eligible_pair {
            let done = app.store.move_words(i, m);
            assert(done);
            assert((n - (i + 1)) * u32::MAX + u32::MAX == (n - i) * u32::MAX) by (nonlinear_arith);
            total = total + m as u128;
        } else {
            assert((n - (i + 1)) * u32::MAX <= (n - i) * u32::MAX) by (nonlinear_arith);
        }
        proof {
            lemma_fixed_from_len(doc, m as int, i as int);
        }
    }
    app.store.prune_blank();
    app.status = Status::AutofixComplete { words_moved: total };
}

} // verus!
