//! What the editor asks the outside to do, and how it takes in what that
//! brought: saving, exporting, the clipboard and playback.

use vstd::prelude::*;
use crate::app::{App, Status};
use crate::error::Error;
use crate::vim::has_current_clip;

verus! {

/// What the caller has to do after an event, with the values it needs.
/// Times are milliseconds.
#[derive(Debug)]
pub enum Effect {
    Nothing,
    SaveProject { path: String },
    Export { filename: String },
    CopyToClipboard { text: String },
    StopPlayback { pid: u32 },
    PlayClip { start_time: u64, end_time: u64 },
    PlayFrom { index: usize },
}

/// Why an outside action failed: the kind of failure, and the text to
/// keep as the last error.
#[derive(Debug)]
pub struct Failure {
    pub error: Error,
    pub detail: String,
}

/// What saving the project to `path` brought: `failure` is `None` after a
/// save that worked.
pub open spec fn save_finished_post(pre: App, path: String, failure: Option<Failure>, post: App) -> bool {
    match failure {
        None => post == (App { status: Status::Saved(path), ..pre }),
        Some(f) => post == (App {
            status: Status::SaveFailed(f.error),
            last_error: Some(f.detail),
            ..pre
        }),
    }
}

/// What exporting to `filename` brought.
pub open spec fn export_finished_post(
    pre: App,
    filename: String,
    failure: Option<Failure>,
    post: App,
) -> bool {
    match failure {
        None => post == (App { status: Status::Exported(filename), ..pre }),
        Some(f) => post == (App {
            status: Status::ExportFailed(f.error),
            last_error: Some(f.detail),
            ..pre
        }),
    }
}

/// What handing the last error to the clipboard brought.
pub open spec fn clipboard_finished_post(pre: App, failure: Option<Error>, post: App) -> bool {
    match failure {
        None => post == (App { status: Status::LastErrorCopied, ..pre }),
        Some(e) => post == (App { status: Status::ClipboardFailed(e), ..pre }),
    }
}

/// What the key for playing from the cursor on makes of the session: a
/// running playback is stopped; else playback from the cursor is asked
/// for.
pub open spec fn toggle_play_from_post(pre: App, post: App, effect: Effect) -> bool {
    match pre.playback_pid {
        Some(pid) => {
            &&& post == (App { playback_pid: None, status: Status::PlaybackStopped, ..pre })
            &&& effect == (Effect::StopPlayback { pid })
        },
        None => {
            &&& post == (App { status: Status::PlayingFrom(pre.store.current_index), ..pre })
            &&& effect == (Effect::PlayFrom { index: pre.store.current_index })
        },
    }
}

/// What the key for playing the clip under the cursor makes of the
/// session: a running playback is stopped; else the clip under the cursor,
/// where there is one, is asked to be played.
pub open spec fn toggle_play_clip_post(pre: App, post: App, effect: Effect) -> bool {
    match pre.playback_pid {
        Some(pid) => {
            &&& post == (App { playback_pid: None, status: Status::PlaybackStopped, ..pre })
            &&& effect == (Effect::StopPlayback { pid })
        },
        None => if has_current_clip(pre) {
            let clip = pre.store.clips@[pre.store.current_index as int];
            &&& post == (App { status: Status::PlayingClip(pre.store.current_index), ..pre })
            &&& effect == (Effect::PlayClip {
                start_time: clip.start_time,
                end_time: clip.end_time,
            })
        } else {
            post == pre && effect is Nothing
        },
    }
}

impl App {
    /// Takes in how the saving of the project to `path` went. A failure is
    /// shown and its text kept as the last error.
    pub fn save_finished(&mut self, path: String, failure: Option<Failure>)
        ensures
            save_finished_post(*old(self), path, failure, *final(self)),
    {
        match failure {
            None => {
                self.status = Status::Saved(path);
            },
            Some(f) => {
                self.status = Status::SaveFailed(f.error);
                self.last_error = Some(f.detail);
            },
        }
    }

    /// Takes in how the export to `filename` went. A failure is shown and
    /// its text kept as the last error.
    pub fn export_finished(&mut self, filename: String, failure: Option<Failure>)
        ensures
            export_finished_post(*old(self), filename, failure, *final(self)),
    {
        match failure {
            None => {
                self.status = Status::Exported(filename);
            },
            Some(f) => {
                self.status = Status::ExportFailed(f.error);
                self.last_error = Some(f.detail);
            },
        }
    }

    /// Takes in how copying the last error to the clipboard went.
    pub fn clipboard_finished(&mut self, failure: Option<Error>)
        ensures
            clipboard_finished_post(*old(self), failure, *final(self)),
    {
        match failure {
            None => {
                self.status = Status::LastErrorCopied;
            },
            Some(e) => {
                self.status = Status::ClipboardFailed(e);
            },
        }
    }

    /// Notes the process that plays.
    pub fn playback_started(&mut self, pid: u32)
        ensures
            *final(self) == (App { playback_pid: Some(pid), ..*old(self) }),
    {
        self.playback_pid = Some(pid);
    }

    /// Notes that playback could not start.
    pub fn playback_failed(&mut self)
        ensures
            *final(self) == (App { status: Status::PlaybackFailed, ..*old(self) }),
    {
        self.status = Status::PlaybackFailed;
    }

    /// Shows that window `chunk` of `of`, counted from 1, is being
    /// transcribed.
    pub fn note_progress(&mut self, chunk: u64, of: u64)
        ensures
            *final(self) == (App { status: Status::Transcribing { chunk, of }, ..*old(self) }),
    {
        self.status = Status::Transcribing { chunk, of };
    }

    /// Stops the playback that runs, or asks for playback from the cursor
    /// on.
    pub fn toggle_play_from(&mut self) -> (effect: Effect)
        ensures
            toggle_play_from_post(*old(self), *final(self), effect),
    {
        match self.playback_pid {
            Some(pid) => {
                self.playback_pid = None;
                self.status = Status::PlaybackStopped;
                Effect::StopPlayback { pid }
            },
            None => {
                self.status = Status::PlayingFrom(self.store.current_index);
                Effect::PlayFrom { index: self.store.current_index }
            },
        }
    }

    /// Stops the playback that runs, or asks for the clip under the cursor
    /// to be played.
    pub fn toggle_play_clip(&mut self) -> (effect: Effect)
        ensures
            toggle_play_clip_post(*old(self), *final(self), effect),
    {
        match self.playback_pid {
            Some(pid) => {
                self.playback_pid = None;
                self.status = Status::PlaybackStopped;
                Effect::StopPlayback { pid }
            },
            None => {
                let index = self.store.current_index;
                if index < self.store.len() {
                    let start_time = self.store.clips[index].start_time;
                    let end_time = self.store.clips[index].end_time;
                    self.status = Status::PlayingClip(index);
                    Effect::PlayClip { start_time, end_time }
                } else {
                    Effect::Nothing
                }
            },
        }
    }
}

} // verus!
