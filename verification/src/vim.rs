//! The commands of normal and insert mode: cursor movement, cut, yank and
//! paste of whole clips, undo and redo, and the editing of a clip's
//! comment.

use vstd::prelude::*;
use crate::app::{App, Status};
use crate::clip::ClipView;
use crate::store::{ClipStore, clamped};
use crate::text::{pop_char, push_char};

verus! {

/// Whether the cursor of the session is on a clip.
pub open spec fn has_current_clip(app: App) -> bool {
    app.store.current_index < app.store.doc().len()
}

/// How `post`, the session after `next_clip`, relates to `pre`, the
/// session before.
pub open spec fn next_clip_post(pre: App, post: App) -> bool {
    &&& post == (App {
        store: ClipStore {
            clips: pre.store.clips,
            current_index: if pre.store.current_index + 1 < pre.store.doc().len() {
                (pre.store.current_index + 1) as usize
            } else {
                pre.store.current_index
            },
        },
        ..pre
    })
}

/// Moves the cursor to the next clip; on the last clip it stays.
pub fn next_clip(app: &mut App)
    ensures
        next_clip_post(*old(app), *final(app)),
{
    app.store.move_next();
}

/// How `post`, the session after `previous_clip`, relates to `pre`, the
/// session before.
pub open spec fn previous_clip_post(pre: App, post: App) -> bool {
    &&& post == (App {
        store: ClipStore {
            clips: pre.store.clips,
            current_index: if pre.store.current_index > 0 {
                (pre.store.current_index - 1) as usize
            } else {
                0
            },
        },
        ..pre
    })
}

/// Moves the cursor to the previous clip; on the first clip it stays.
pub fn previous_clip(app: &mut App)
    ensures
        previous_clip_post(*old(app), *final(app)),
{
    app.store.move_previous();
}

/// How `post`, the session after `delete_clip`, relates to `pre`, the
/// session before.
pub open spec fn delete_clip_post(pre: App, post: App) -> bool {
    &&& !has_current_clip(pre) ==> post == pre
    &&& has_current_clip(pre) ==> {
        let index = pre.store.current_index as int;
        let doc = pre.store.doc();
        &&& post == (App {
            store: post.store,
            history: post.history,
            register: post.register,
            status: Status::Deleted,
            ..pre
        })
        &&& post.timeline() == pre.timeline().edit(doc.remove(index))
        &&& post.store.current_index == clamped(index, doc.len() - 1)
        &&& post.register matches Some(c) && c@ == doc[index]
    }
}

/// Cuts the clip under the cursor: the document is checkpointed, the clip
/// leaves it for the register, and the cursor is clamped. Without a clip
/// under the cursor nothing changes.
pub fn delete_clip(app: &mut App)
    ensures
        delete_clip_post(*old(app), *final(app)),
{
    let index = app.store.current_index;
    if index < app.store.len() {
        app.save_undo_state();
        let removed = app.store.remove_at(index);
        app.register = removed;
        app.status = Status::Deleted;
    }
}

/// How `post`, the session after `yank_clip`, relates to `pre`, the
/// session before.
pub open spec fn yank_clip_post(pre: App, post: App) -> bool {
    &&& !has_current_clip(pre) ==> post == pre
    &&& has_current_clip(pre) ==> {
        &&& post == (App {
            register: post.register,
            status: Status::Yanked,
            ..pre
        })
        &&& post.register matches Some(c) && c@ == pre.store.doc()[pre.store.current_index as int]
    }
}

/// Copies the clip under the cursor into the register. Without a clip
/// under the cursor nothing changes.
pub fn yank_clip(app: &mut App)
    ensures
        yank_clip_post(*old(app), *final(app)),
{
    let index = app.store.current_index;
    if index < app.store.len() {
        app.register = Some(app.store.clips[index].clone());
        app.status = Status::Yanked;
    }
}

/// Where a pasted clip goes: behind the cursor, or at the end of a
/// document that the cursor is not in.
pub open spec fn paste_position(app: App) -> int {
    if has_current_clip(app) {
        app.store.current_index + 1
    } else {
        app.store.doc().len() as int
    }
}

/// How `post`, the session after `paste_clip`, relates to `pre`, the
/// session before.
pub open spec fn paste_clip_post(pre: App, post: App) -> bool {
    &&& pre.register is None ==> post == (App {
        status: Status::NothingToPaste,
        ..pre
    })
    &&& pre.register matches Some(c) ==> {
        &&& post == (App {
            store: post.store,
            history: post.history,
            status: Status::Pasted,
            ..pre
        })
        &&& post.timeline() == pre.timeline().edit(
            pre.store.doc().insert(paste_position(pre), c@),
        )
        &&& post.store.current_index == pre.store.current_index
    }
}

/// Inserts a copy of the clip in the register behind the cursor, after a
/// checkpoint. With an empty register only the status changes.
pub fn paste_clip(app: &mut App)
    ensures
        paste_clip_post(*old(app), *final(app)),
{
    let copy = match &app.register {
        None => {
            app.status = Status::NothingToPaste;
            return ;
        },
        Some(c) => c.clone(),
    };
    app.save_undo_state();
    let n = app.store.len();
    let position = if app.store.current_index < n {
        app.store.current_index + 1
    } else {
        n
    };
    let done = app.store.insert_at(position, copy);
    assert(done);
    app.status = Status::Pasted;
}

/// How `post`, the session after `undo`, relates to `pre`, the
/// session before.
pub open spec fn undo_post(pre: App, post: App) -> bool {
    &&& pre.timeline().undo.len() == 0 ==> post == (App {
        status: Status::NothingToUndo,
        ..pre
    })
    &&& pre.timeline().undo.len() > 0 ==> {
        &&& post == (App {
            store: post.store,
            history: post.history,
            status: Status::Undone,
            ..pre
        })
        &&& post.timeline() == pre.timeline().undo()
        &&& post.store.current_index == clamped(
            pre.store.current_index as int,
            post.store.doc().len() as int,
        )
    }
}

/// Steps back to the latest checkpoint and clamps the cursor; without a
/// checkpoint only the status changes: there is nothing to undo.
pub fn undo(app: &mut App)
    ensures
        undo_post(*old(app), *final(app)),
{
    if app.history.undo(&mut app.store.clips) {
        app.store.clamp_cursor();
        app.status = Status::Undone;
    } else {
        app.status = Status::NothingToUndo;
    }
}

/// How `post`, the session after `redo`, relates to `pre`, the
/// session before.
pub open spec fn redo_post(pre: App, post: App) -> bool {
    &&& pre.timeline().redo.len() == 0 ==> post == (App {
        status: Status::NothingToRedo,
        ..pre
    })
    &&& pre.timeline().redo.len() > 0 ==> {
        &&& post == (App {
            store: post.store,
            history: post.history,
            status: Status::Redone,
            ..pre
        })
        &&& post.timeline() == pre.timeline().redo()
        &&& post.store.current_index == clamped(
            pre.store.current_index as int,
            post.store.doc().len() as int,
        )
    }
}

/// Steps forward again to what was undone last and clamps the cursor;
/// where nothing was undone only the status changes: there is nothing to
/// redo.
pub fn redo(app: &mut App)
    ensures
        redo_post(*old(app), *final(app)),
{
    if app.history.redo(&mut app.store.clips) {
        app.store.clamp_cursor();
        app.status = Status::Redone;
    } else {
        app.status = Status::NothingToRedo;
    }
}

/// The document `doc` with `comment` as the comment of clip `index`.
pub open spec fn with_comment(doc: Seq<ClipView>, index: int, comment: Seq<char>) -> Seq<
    ClipView,
>
    recommends
        0 <= index < doc.len(),
{
    doc.update(index, ClipView { comment, ..doc[index] })
}

/// How `post`, the session after `append_to_comment`, relates to `pre`, the
/// session before.
pub open spec fn append_to_comment_post(pre: App, c: char, post: App) -> bool {
    &&& !has_current_clip(pre) ==> post == pre
    &&& has_current_clip(pre) ==> {
        let index = pre.store.current_index as int;
        let doc = pre.store.doc();
        &&& post == (App { store: post.store, ..pre })
        &&& post.store.current_index == pre.store.current_index
        &&& post.store.doc() == with_comment(doc, index, doc[index].comment.push(c))
    }
}

/// Appends `c` to the comment of the clip under the cursor. Without a clip
/// under the cursor nothing changes.
pub fn append_to_comment(app: &mut App, c: char)
    ensures
        append_to_comment_post(*old(app), c, *final(app)),
{
    let index = app.store.current_index;
    if index < app.store.len() {
        push_char(&mut app.store.clips[index].comment, c);
        assert(app.store.doc() =~= with_comment(
            old(app).store.doc(),
            index as int,
            old(app).store.doc()[index as int].comment.push(c),
        ));
    }
}

/// How `post`, the session after `pop_from_comment`, relates to `pre`, the
/// session before.
pub open spec fn pop_from_comment_post(pre: App, post: App) -> bool {
    &&& !has_current_clip(pre) ==> post == pre
    &&& has_current_clip(pre) ==> {
        let index = pre.store.current_index as int;
        let doc = pre.store.doc();
        &&& post == (App { store: post.store, ..pre })
        &&& post.store.current_index == pre.store.current_index
        &&& post.store.doc() == with_comment(
            doc,
            index,
            if doc[index].comment.len() > 0 {
                doc[index].comment.drop_last()
            } else {
                doc[index].comment
            },
        )
    }
}

/// Removes the last character of the comment of the clip under the
/// cursor. An empty comment stays empty; without a clip under the cursor
/// nothing changes.
pub fn pop_from_comment(app: &mut App)
    ensures
        pop_from_comment_post(*old(app), *final(app)),
{
    let index = app.store.current_index;
    if index < app.store.len() {
        let _ = pop_char(&mut app.store.clips[index].comment);
        assert(app.store.doc() =~= with_comment(
            old(app).store.doc(),
            index as int,
            if old(app).store.doc()[index as int].comment.len() > 0 {
                old(app).store.doc()[index as int].comment.drop_last()
            } else {
                old(app).store.doc()[index as int].comment
            },
        ));
    }
}

} // verus!
