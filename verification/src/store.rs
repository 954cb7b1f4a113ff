//! The clip store: the document, a cursor into it, and the primitive
//! mutations. No mutation reorders the clips that stay.

use vstd::prelude::*;
use crate::clip::{Clip, ClipView, document};
use crate::text::{
    is_blank, is_blank_text, join, join_words, law_blank_has_no_words, law_words_of_join,
    law_words_are_runs, lemma_words_around_space, push_char, split_words, texts, words,
    are_words,
};

verus! {

/// `cursor` brought into `[0, len - 1]`, or 0 for an empty document.
pub open spec fn clamped(cursor: int, len: int) -> int {
    if len <= 0 {
        0
    } else if cursor >= len {
        len - 1
    } else {
        cursor
    }
}

/// The document `doc` after the first `count` words of clip `index + 1`
/// moved to the end of clip `index`, behind one space; the rest of the
/// words, joined by single spaces, stay.
pub open spec fn shift_words(doc: Seq<ClipView>, index: int, count: int) -> Seq<ClipView>
    recommends
        0 <= index,
        index + 1 < doc.len(),
        0 <= count <= words(doc[index + 1].transcript).len(),
{
    let ws = words(doc[index + 1].transcript);
    doc.update(
        index,
        ClipView {
            transcript: doc[index].transcript + seq![' '] + join(ws.take(count)),
            ..doc[index]
        },
    ).update(index + 1, ClipView { transcript: join(ws.skip(count)), ..doc[index + 1] })
}

/// The document `doc` with clips `index` and `index + 1` marked as
/// manually adjusted.
pub open spec fn flag_pair(doc: Seq<ClipView>, index: int) -> Seq<ClipView>
    recommends
        0 <= index,
        index + 1 < doc.len(),
{
    doc.update(index, ClipView { is_manually_adjusted: true, ..doc[index] }).update(
        index + 1,
        ClipView { is_manually_adjusted: true, ..doc[index + 1] },
    )
}

/// The clips of `doc` whose transcript holds more than white space, in
/// their order.
pub open spec fn without_blank(doc: Seq<ClipView>) -> Seq<ClipView>
    decreases doc.len(),
{
    if doc.len() == 0 {
        doc
    } else if is_blank(doc.last().transcript) {
        without_blank(doc.drop_last())
    } else {
        without_blank(doc.drop_last()).push(doc.last())
    }
}

/// The words of the whole document: the words of each clip's transcript,
/// clip after clip.
pub open spec fn all_words(doc: Seq<ClipView>) -> Seq<Seq<char>>
    decreases doc.len(),
{
    if doc.len() == 0 {
        Seq::empty()
    } else {
        all_words(doc.drop_last()) + words(doc.last().transcript)
    }
}

/// The words of two documents in a row are the words of the first
/// followed by the words of the second.
pub proof fn lemma_all_words_append(a: Seq<ClipView>, b: Seq<ClipView>)
    ensures
        all_words(a + b) == all_words(a) + all_words(b),
    decreases b.len(),
{
    if b.len() == 0 {
        assert(a + b =~= a);
        assert(all_words(a) + all_words(b) =~= all_words(a));
    } else {
        assert((a + b).drop_last() =~= a + b.drop_last());
        assert((a + b).last() == b.last());
        lemma_all_words_append(a, b.drop_last());
        assert((all_words(a) + all_words(b.drop_last())) + words(b.last().transcript) =~= all_words(
            a,
        ) + (all_words(b.drop_last()) + words(b.last().transcript)));
    }
}

/// Documents of the same transcripts have the same words.
pub proof fn lemma_all_words_by_transcripts(a: Seq<ClipView>, b: Seq<ClipView>)
    requires
        a.len() == b.len(),
        forall|i: int| 0 <= i < a.len() ==> (#[trigger] a[i]).transcript == b[i].transcript,
    ensures
        all_words(a) == all_words(b),
    decreases a.len(),
{
    if a.len() > 0 {
        assert(a.last().transcript == a[a.len() - 1].transcript);
        assert forall|i: int| 0 <= i < a.drop_last().len() implies (
        #[trigger] a.drop_last()[i]).transcript == b.drop_last()[i].transcript by {
            assert(a.drop_last()[i] == a[i]);
            assert(b.drop_last()[i] == b[i]);
        }
        lemma_all_words_by_transcripts(a.drop_last(), b.drop_last());
    }
}

/// The words of a document of two clips.
proof fn lemma_all_words_of_pair(x: ClipView, y: ClipView)
    ensures
        all_words(seq![x, y]) == words(x.transcript) + words(y.transcript),
{
    let d = seq![x, y];
    let one = seq![x];
    assert(d.drop_last() =~= one);
    assert(d.last() == y);
    assert(one.drop_last() =~= Seq::<ClipView>::empty());
    assert(one.last() == x);
    assert(all_words(one.drop_last()) =~= Seq::<Seq<char>>::empty());
    assert(all_words(one) == all_words(one.drop_last()) + words(x.transcript));
    assert(all_words(one) =~= words(x.transcript));
    assert(all_words(d) == all_words(one) + words(y.transcript));
}

/// Moving words across a boundary loses none, adds none and keeps their
/// order: the first clip gains the words moved behind its own, the second
/// keeps the rest, and the words of the whole document stay as they are.
pub proof fn law_shift_keeps_words(doc: Seq<ClipView>, index: int, count: int)
    requires
        0 <= index,
        index + 1 < doc.len(),
        0 <= count <= words(doc[index + 1].transcript).len(),
    ensures
        words(shift_words(doc, index, count)[index].transcript) == words(doc[index].transcript)
            + words(doc[index + 1].transcript).take(count),
        words(shift_words(doc, index, count)[index + 1].transcript) == words(
            doc[index + 1].transcript,
        ).skip(count),
        all_words(shift_words(doc, index, count)) == all_words(doc),
{
    let ws = words(doc[index + 1].transcript);
    let post = shift_words(doc, index, count);
    law_words_are_runs(doc[index + 1].transcript);
    assert(are_words(ws.take(count))) by {
        assert forall|k: int| 0 <= k < ws.take(count).len() implies (#[trigger] ws.take(
            count,
        )[k]).len() > 0 && forall|i: int|
            0 <= i < ws.take(count)[k].len() ==> !crate::text::is_space(
                #[trigger] ws.take(count)[k][i],
            ) by {
            assert(ws.take(count)[k] == ws[k]);
        }
    }
    assert(are_words(ws.skip(count))) by {
        assert forall|k: int| 0 <= k < ws.skip(count).len() implies (#[trigger] ws.skip(
            count,
        )[k]).len() > 0 && forall|i: int|
            0 <= i < ws.skip(count)[k].len() ==> !crate::text::is_space(
                #[trigger] ws.skip(count)[k][i],
            ) by {
            assert(ws.skip(count)[k] == ws[k + count]);
        }
    }
    law_words_of_join(ws.take(count));
    law_words_of_join(ws.skip(count));
    lemma_words_around_space(doc[index].transcript, join(ws.take(count)));
    let before = doc.take(index);
    let after = doc.skip(index + 2);
    assert(doc =~= before + seq![doc[index], doc[index + 1]] + after);
    assert(post =~= before + seq![post[index], post[index + 1]] + after);
    lemma_all_words_append(before + seq![doc[index], doc[index + 1]], after);
    lemma_all_words_append(before, seq![doc[index], doc[index + 1]]);
    lemma_all_words_append(before + seq![post[index], post[index + 1]], after);
    lemma_all_words_append(before, seq![post[index], post[index + 1]]);
    lemma_all_words_of_pair(doc[index], doc[index + 1]);
    lemma_all_words_of_pair(post[index], post[index + 1]);
    assert((words(doc[index].transcript) + ws.take(count)) + ws.skip(count) =~= words(
        doc[index].transcript,
    ) + ws);
}

/// Removing the clips without text removes no word.
pub proof fn law_prune_keeps_words(doc: Seq<ClipView>)
    ensures
        all_words(without_blank(doc)) == all_words(doc),
    decreases doc.len(),
{
    if doc.len() > 0 {
        law_prune_keeps_words(doc.drop_last());
        law_blank_has_no_words(doc.last().transcript);
        if is_blank(doc.last().transcript) {
            assert(all_words(doc.drop_last()) + words(doc.last().transcript) =~= all_words(
                doc.drop_last(),
            ));
        } else {
            let kept = without_blank(doc.drop_last()).push(doc.last());
            assert(kept.drop_last() =~= without_blank(doc.drop_last()));
        }
    }
}

/// The ordered clips and the cursor.
pub struct ClipStore {
    pub clips: Vec<Clip>,
    pub current_index: usize,
}

impl ClipStore {
    /// What the stored clips denote.
    pub open spec fn doc(&self) -> Seq<ClipView> {
        document(self.clips@)
    }

    /// An empty store with the cursor at 0.
    pub fn new() -> (s: ClipStore)
        ensures
            s.doc().len() == 0,
            s.current_index == 0,
    {
        ClipStore { clips: Vec::new(), current_index: 0 }
    }

    /// The number of clips.
    pub fn len(&self) -> (n: usize)
        ensures
            n == self.doc().len(),
    {
        self.clips.len()
    }

    /// The clip at `index`, if there is one.
    pub fn get(&self, index: usize) -> (r: Option<&Clip>)
        ensures
            index < self.doc().len() ==> r == Some(&self.clips@[index as int]),
            index >= self.doc().len() ==> r is None,
    {
        if index < self.clips.len() {
            Some(&self.clips[index])
        } else {
            None
        }
    }

    /// The clip under the cursor, if there is one.
    pub fn current(&self) -> (r: Option<&Clip>)
        ensures
            self.current_index < self.doc().len() ==> r == Some(
                &self.clips@[self.current_index as int],
            ),
            self.current_index >= self.doc().len() ==> r is None,
    {
        self.get(self.current_index)
    }

    /// Brings the cursor into range.
    pub fn clamp_cursor(&mut self)
        ensures
            final(self).clips == old(self).clips,
            final(self).current_index == clamped(
                old(self).current_index as int,
                old(self).doc().len() as int,
            ),
    {
        let n = self.clips.len();
        if n == 0 {
            self.current_index = 0;
        } else if self.current_index >= n {
            self.current_index = n - 1;
        }
    }

    /// Moves the cursor one clip on; on the last clip it stays.
    pub fn move_next(&mut self)
        ensures
            final(self).clips == old(self).clips,
            final(self).current_index == if old(self).current_index + 1 < old(self).doc().len() {
                old(self).current_index + 1
            } else {
                old(self).current_index as int
            },
    {
        if self.current_index < self.clips.len() && self.current_index + 1 < self.clips.len() {
            self.current_index = self.current_index + 1;
        }
    }

    /// Moves the cursor one clip back; on the first clip it stays.
    pub fn move_previous(&mut self)
        ensures
            final(self).clips == old(self).clips,
            final(self).current_index == if old(self).current_index > 0 {
                old(self).current_index - 1
            } else {
                0
            },
    {
        if self.current_index > 0 {
            self.current_index = self.current_index - 1;
        }
    }

    /// Inserts `clip` before position `index`, or at the end where `index`
    /// is the length. A greater `index` changes nothing and returns `false`.
    pub fn insert_at(&mut self, index: usize, clip: Clip) -> (done: bool)
        ensures
            done == (index <= old(self).doc().len()),
            done ==> final(self).doc() == old(self).doc().insert(index as int, clip@),
            !done ==> final(self).doc() == old(self).doc(),
            final(self).current_index == old(self).current_index,
    {
        if index <= self.clips.len() {
            self.clips.insert(index, clip);
            assert(self.doc() =~= old(self).doc().insert(index as int, clip@));
            true
        } else {
            false
        }
    }

    /// Removes and returns the clip at `index` and clamps the cursor into
    /// the shorter document. Without a clip at `index` nothing changes.
    pub fn remove_at(&mut self, index: usize) -> (removed: Option<Clip>)
        ensures
            index < old(self).doc().len() ==> removed is Some && removed->0@ == old(
                self,
            ).doc()[index as int] && final(self).doc() == old(self).doc().remove(index as int)
                && final(self).current_index == clamped(
                old(self).current_index as int,
                old(self).doc().len() - 1,
            ),
            index >= old(self).doc().len() ==> removed is None && final(self).doc() == old(
                self,
            ).doc() && final(self).current_index == old(self).current_index,
    {
        if index < self.clips.len() {
            let clip = self.clips.remove(index);
            assert(self.doc() =~= old(self).doc().remove(index as int));
            self.clamp_cursor();
            Some(clip)
        } else {
            None
        }
    }

    /// Puts `clip` in place of the clip at `index` and returns the clip
    /// that was there. Without a clip at `index` nothing changes and `clip`
    /// comes back as the error.
    pub fn replace_at(&mut self, index: usize, clip: Clip) -> (r: Result<Clip, Clip>)
        ensures
            index < old(self).doc().len() ==> r is Ok && r->Ok_0@ == old(self).doc()[index as int]
                && final(self).doc() == old(self).doc().update(index as int, clip@),
            index >= old(self).doc().len() ==> r is Err && r->Err_0@ == clip@ && final(self).doc()
                == old(self).doc(),
            final(self).current_index == old(self).current_index,
    {
        if index < self.clips.len() {
            let ghost new_view = clip@;
            let mut held = clip;
            std::mem::swap(&mut self.clips[index], &mut held);
            assert(self.doc() =~= old(self).doc().update(index as int, new_view));
            Ok(held)
        } else {
            Err(clip)
        }
    }

    /// Moves the first `count` words of clip `index + 1` to the end of clip
    /// `index`. Without a clip at `index + 1`, or with fewer words there
    /// than `count`, nothing changes and the result is `false`.
    pub fn move_words(&mut self, index: usize, count: usize) -> (done: bool)
        ensures
            done == (index + 1 < old(self).doc().len() && count <= words(
                old(self).doc()[index + 1].transcript,
            ).len()),
            done ==> final(self).doc() == shift_words(old(self).doc(), index as int, count as int),
            !done ==> final(self).doc() == old(self).doc(),
            final(self).current_index == old(self).current_index,
    {
        let n = self.clips.len();
        if index >= n || index + 1 >= n {
            return false;
        }
        let ws = split_words(self.clips[index + 1].transcript.as_str());
        assert(texts(ws@).len() == ws@.len());
        if count > ws.len() {
            return false;
        }
        let moved = join_words(&ws, 0, count);
        let rest = join_words(&ws, count, ws.len());
        proof {
            let all = words(old(self).doc()[index + 1].transcript);
            assert(all.take(count as int) == all.subrange(0, count as int));
            assert(all.skip(count as int) == all.subrange(count as int, all.len() as int));
        }
        push_char(&mut self.clips[index].transcript, ' ');
        self.clips[index].transcript.append(moved.as_str());
        self.clips[index + 1].transcript = rest;
        proof {
            let d = old(self).doc();
            let all = words(d[index + 1].transcript);
            let target = shift_words(d, index as int, count as int);
            assert(self.clips@[index as int].transcript@ =~= d[index as int].transcript + seq![' ']
                + join(all.take(count as int)));
            assert(self.clips@[index + 1].transcript@ == join(all.skip(count as int)));
            assert(self.doc()[index as int] == target[index as int]);
            assert(self.doc()[index + 1] == target[index + 1]);
            assert forall|j: int| 0 <= j < self.doc().len() implies self.doc()[j] == target[j] by {
                if j != index && j != index + 1 {
                    assert(self.clips@[j] == old(self).clips@[j]);
                }
            }
            assert(self.doc() =~= target);
        }
        true
    }

    /// Marks clips `index` and `index + 1` as manually adjusted, where both
    /// exist; else nothing changes.
    pub fn flag_adjusted(&mut self, index: usize)
        ensures
            index + 1 < old(self).doc().len() ==> final(self).doc() == flag_pair(
                old(self).doc(),
                index as int,
            ),
            index + 1 >= old(self).doc().len() ==> final(self).doc() == old(self).doc(),
            final(self).current_index == old(self).current_index,
    {
        let n = self.clips.len();
        if index < n && index + 1 < n {
            self.clips[index].is_manually_adjusted = true;
            self.clips[index + 1].is_manually_adjusted = true;
            assert(self.doc() =~= flag_pair(old(self).doc(), index as int));
        }
    }

    /// Removes every clip whose transcript is empty or white space only,
    /// and clamps the cursor into what is left.
    pub fn prune_blank(&mut self)
        ensures
            final(self).doc() == without_blank(old(self).doc()),
            final(self).current_index == clamped(
                old(self).current_index as int,
                without_blank(old(self).doc()).len() as int,
            ),
    {
        let mut kept: Vec<Clip> = Vec::new();
        let mut i: usize = 0;
        while i < self.clips.len()
            invariant
                i <= self.clips.len(),
                self.clips == old(self).clips,
                self.current_index == old(self).current_index,
                document(kept@) == without_blank(self.doc().take(i as int)),
            decreases self.clips.len() - i,
        {
            let ghost before = document(kept@);
            assert(self.doc().take(i + 1).drop_last() == self.doc().take(i as int));
            if !is_blank_text(self.clips[i].transcript.as_str()) {
                kept.push(self.clips[i].clone());
                assert(document(kept@) =~= before.push(self.doc()[i as int]));
            }
            i += 1;
        }
        assert(self.doc().take(self.clips.len() as int) == self.doc());
        self.clips = kept;
        self.clamp_cursor();
    }
}

} // verus!
