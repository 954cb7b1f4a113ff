//! Linear undo and redo over whole-document snapshots.

use vstd::prelude::*;
use crate::clip::{Clip, ClipView, document, documents, clone_document};

verus! {

/// The editing history as a mathematical value: the current document and
/// the two stacks of snapshots, each with its most recent entry last.
pub struct Timeline {
    pub current: Seq<ClipView>,
    pub undo: Seq<Seq<ClipView>>,
    pub redo: Seq<Seq<ClipView>>,
}

impl Timeline {
    /// Remembers the current document and forgets what could be redone.
    pub open spec fn checkpoint(self) -> Timeline {
        Timeline { current: self.current, undo: self.undo.push(self.current), redo: Seq::empty() }
    }

    /// One checkpointed mutation that leaves the document as `doc`.
    pub open spec fn edit(self, doc: Seq<ClipView>) -> Timeline {
        Timeline { current: doc, ..self.checkpoint() }
    }

    /// Steps back to the latest snapshot, if there is one.
    pub open spec fn undo(self) -> Timeline {
        if self.undo.len() == 0 {
            self
        } else {
            Timeline {
                current: self.undo.last(),
                undo: self.undo.drop_last(),
                redo: self.redo.push(self.current),
            }
        }
    }

    /// Steps forward again to what was undone last, if anything was.
    pub open spec fn redo(self) -> Timeline {
        if self.redo.len() == 0 {
            self
        } else {
            Timeline {
                current: self.redo.last(),
                undo: self.undo.push(self.current),
                redo: self.redo.drop_last(),
            }
        }
    }

    /// The checkpointed mutations `docs`, in order.
    pub open spec fn edit_all(self, docs: Seq<Seq<ClipView>>) -> Timeline
        decreases docs.len(),
    {
        if docs.len() == 0 {
            self
        } else {
            self.edit_all(docs.drop_last()).edit(docs.last())
        }
    }

    /// `n` undo steps.
    pub open spec fn undo_times(self, n: nat) -> Timeline
        decreases n,
    {
        if n == 0 {
            self
        } else {
            self.undo().undo_times((n - 1) as nat)
        }
    }

    /// `n` redo steps.
    pub open spec fn redo_times(self, n: nat) -> Timeline
        decreases n,
    {
        if n == 0 {
            self
        } else {
            self.redo().redo_times((n - 1) as nat)
        }
    }

    /// Whether two timelines agree on the current document and on what can
    /// be undone.
    pub open spec fn same_past(self, other: Timeline) -> bool {
        self.current == other.current && self.undo == other.undo
    }
}

/// An undo step that had a snapshot to go back to is reverted by one redo.
pub proof fn lemma_redo_reverts_undo(t: Timeline)
    requires
        t.undo.len() > 0,
    ensures
        t.undo().redo() == t,
{
    let u = t.undo();
    assert(u.redo.drop_last() =~= t.redo);
    assert(u.undo.push(u.current) =~= t.undo);
}

/// Undo steps read only the current document and the undo stack.
proof fn lemma_undo_times_same_past(a: Timeline, b: Timeline, n: nat)
    requires
        a.same_past(b),
    ensures
        a.undo_times(n).same_past(b.undo_times(n)),
    decreases n,
{
    if n > 0 {
        lemma_undo_times_same_past(a.undo(), b.undo(), (n - 1) as nat);
    }
}

/// `n` undo steps are `n - 1` steps and one more.
proof fn lemma_undo_times_last(t: Timeline, n: nat)
    requires
        n > 0,
    ensures
        t.undo_times(n) == t.undo_times((n - 1) as nat).undo(),
    decreases n,
{
    let m = (n - 1) as nat;
    assert(t.undo_times(n) == t.undo().undo_times(m));
    if n > 1 {
        lemma_undo_times_last(t.undo(), m);
        assert(t.undo_times(m) == t.undo().undo_times((m - 1) as nat));
    } else {
        assert(t.undo().undo_times(0) == t.undo());
        assert(t.undo_times(0) == t);
    }
}

/// Each undo step that finds a snapshot shortens the undo stack by one.
proof fn lemma_undo_times_len(t: Timeline, n: nat)
    requires
        n <= t.undo.len(),
    ensures
        t.undo_times(n).undo.len() == t.undo.len() - n,
    decreases n,
{
    if n > 0 {
        lemma_undo_times_len(t.undo(), (n - 1) as nat);
    }
}

/// As many redo steps as undo steps that each found a snapshot bring the
/// whole timeline back.
pub proof fn lemma_redo_times_reverts_undo_times(t: Timeline, n: nat)
    requires
        n <= t.undo.len(),
    ensures
        t.undo_times(n).redo_times(n) == t,
    decreases n,
{
    if n > 0 {
        let m = (n - 1) as nat;
        let before = t.undo_times(m);
        lemma_undo_times_last(t, n);
        lemma_undo_times_len(t, m);
        lemma_redo_reverts_undo(before);
        lemma_redo_times_reverts_undo_times(t, m);
    }
}

/// Each checkpointed mutation adds one snapshot.
proof fn lemma_edit_all_len(t: Timeline, docs: Seq<Seq<ClipView>>)
    ensures
        t.edit_all(docs).undo.len() == t.undo.len() + docs.len(),
    decreases docs.len(),
{
    if docs.len() > 0 {
        lemma_edit_all_len(t, docs.drop_last());
    }
}

/// After any number of checkpointed mutations, as many undo steps restore
/// the document and the undo stack as they were before the first of them,
/// and as many redo steps after that restore the timeline as it was after
/// the last.
pub proof fn law_undo_redo_round_trip(t: Timeline, docs: Seq<Seq<ClipView>>)
    ensures
        t.edit_all(docs).undo_times(docs.len()).same_past(t),
        t.edit_all(docs).undo_times(docs.len()).redo_times(docs.len()) == t.edit_all(docs),
    decreases docs.len(),
{
    lemma_edit_all_len(t, docs);
    lemma_redo_times_reverts_undo_times(t.edit_all(docs), docs.len());
    if docs.len() > 0 {
        let n = docs.len();
        let inner = t.edit_all(docs.drop_last());
        let last = inner.edit(docs.last());
        assert(last.undo().undo =~= inner.undo);
        assert(last.undo().same_past(inner));
        lemma_undo_times_same_past(last.undo(), inner, (n - 1) as nat);
        law_undo_redo_round_trip(t, docs.drop_last());
    }
}

/// The two snapshot stacks of a session. The document itself lives with
/// its owner and is handed to each operation.
pub struct History {
    pub undo_stack: Vec<Vec<Clip>>,
    pub redo_stack: Vec<Vec<Clip>>,
}

impl History {
    /// The timeline that these stacks form around the document `clips`.
    pub open spec fn timeline(&self, clips: Seq<Clip>) -> Timeline {
        Timeline {
            current: document(clips),
            undo: documents(self.undo_stack@),
            redo: documents(self.redo_stack@),
        }
    }

    /// A history with nothing to undo or redo.
    pub fn new() -> (h: History)
        ensures
            h.undo_stack@.len() == 0,
            h.redo_stack@.len() == 0,
    {
        History { undo_stack: Vec::new(), redo_stack: Vec::new() }
    }

    /// Pushes a deep copy of `clips` as the latest snapshot and clears what
    /// could be redone.
    pub fn save_checkpoint(&mut self, clips: &Vec<Clip>)
        ensures
            final(self).timeline(clips@) == old(self).timeline(clips@).checkpoint(),
    {
        let snapshot = clone_document(clips);
        self.undo_stack.push(snapshot);
        self.redo_stack.clear();
        assert(documents(self.undo_stack@) =~= documents(old(self).undo_stack@).push(
            document(clips@),
        ));
        assert(documents(self.redo_stack@) =~= Seq::<Seq<ClipView>>::empty());
    }

    /// Installs the latest snapshot as the document and keeps the replaced
    /// document for redo. Returns whether there was a snapshot; without one
    /// nothing changes.
    pub fn undo(&mut self, clips: &mut Vec<Clip>) -> (done: bool)
        ensures
            done == (old(self).undo_stack@.len() > 0),
            final(self).timeline(final(clips)@) == old(self).timeline(old(clips)@).undo(),
            !done ==> *final(self) == *old(self) && *final(clips) == *old(clips),
    {
        if self.undo_stack.len() == 0 {
            return false;
        }
        match self.undo_stack.pop() {
            None => false,
            Some(mut snapshot) => {
                std::mem::swap(clips, &mut snapshot);
                self.redo_stack.push(snapshot);
                assert(documents(self.undo_stack@) =~= documents(
                    old(self).undo_stack@,
                ).drop_last());
                assert(documents(self.redo_stack@) =~= documents(old(self).redo_stack@).push(
                    document(old(clips)@),
                ));
                true
            },
        }
    }

    /// Installs what was undone last as the document and keeps the replaced
    /// document for undo. Returns whether there was anything to redo;
    /// without it nothing changes.
    pub fn redo(&mut self, clips: &mut Vec<Clip>) -> (done: bool)
        ensures
            done == (old(self).redo_stack@.len() > 0),
            final(self).timeline(final(clips)@) == old(self).timeline(old(clips)@).redo(),
            !done ==> *final(self) == *old(self) && *final(clips) == *old(clips),
    {
        if self.redo_stack.len() == 0 {
            return false;
        }
        match self.redo_stack.pop() {
            None => false,
            Some(mut snapshot) => {
                std::mem::swap(clips, &mut snapshot);
                self.undo_stack.push(snapshot);
                assert(documents(self.redo_stack@) =~= documents(
                    old(self).redo_stack@,
                ).drop_last());
                assert(documents(self.undo_stack@) =~= documents(old(self).undo_stack@).push(
                    document(old(clips)@),
                ));
                true
            },
        }
    }
}

} // verus!
