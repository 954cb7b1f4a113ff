//! The session: one explicit value that holds the document, the editor
//! mode, the history and what the status line shows.

use vstd::prelude::*;
use crate::clip::{Clip, ClipView, document};
use crate::error::Error;
use crate::history::{History, Timeline};
use crate::stats::AdjustmentLog;
use crate::store::{ClipStore, clamped};

verus! {

/// The editor's sub-mode while the session is ready. `Visual` is reserved:
/// no transition enters it.
#[derive(PartialEq, Eq, Clone, Copy, Debug, Structural)]
pub enum Mode {
    Normal,
    Command,
    Insert,
    Adjust,
    Visual,
}

/// Whether the document is still being produced, with the message to show
/// meanwhile, or is ready for editing.
#[derive(Debug)]
pub enum AppState {
    Loading(String),
    Ready,
}

/// A two-event command: the first event arms it, the same event again
/// performs it.
#[derive(PartialEq, Eq, Clone, Copy, Debug, Structural)]
pub enum Chord {
    Delete,
    Yank,
}

/// What the status line reports.
#[derive(Debug)]
pub enum Status {
    Welcome,
    Transcribing { chunk: u64, of: u64 },
    Loaded { count: usize, transcript_overruns: bool },
    AdjustHelp,
    CannotAdjustLastClip,
    AdjustmentLearned { more_needed: usize },
    PatternLearned,
    AutofixComplete { words_moved: u128 },
    Refused(Error),
    Help,
    UnknownCommand(String),
    ExportNeedsFilename,
    Exporting(String),
    Exported(String),
    ExportFailed(Error),
    NoProjectFile,
    Saving(String),
    Saved(String),
    SaveFailed(Error),
    NoLastError,
    CopyingLastError,
    LastErrorCopied,
    ClipboardFailed(Error),
    PlaybackStopped,
    PlayingFrom(usize),
    PlayingClip(usize),
    PlaybackFailed,
    NothingToUndo,
    Undone,
    NothingToRedo,
    Redone,
    Deleted,
    Yanked,
    Pasted,
    NothingToPaste,
}

/// The message of a session that waits for its document.
pub open spec fn loading_message() -> Seq<char> {
    "Checking cache or transcribing..."@
}

/// The message of a session whose ingestion failed with `detail`.
pub open spec fn error_message(detail: Seq<char>) -> Seq<char> {
    "ERROR: "@ + detail + ". Press 'q' or Ctrl+C to quit."@
}

/// Where the transcript ends: the end time of the last clip, or 0 without
/// clips.
pub open spec fn transcript_end(doc: Seq<ClipView>) -> int {
    if doc.len() == 0 {
        0
    } else {
        doc.last().end_time
    }
}

/// The greatest excess of the transcript over the audio, in milliseconds,
/// that loading passes without a warning.
pub const DISCREPANCY_TOLERANCE_MS: i128 = 1000;

/// The running session.
pub struct App {
    pub state: AppState,
    pub original_audio_path: String,
    pub project_path: Option<String>,
    pub store: ClipStore,
    pub mode: Mode,
    pub command_input: String,
    pub should_quit: bool,
    pub register: Option<Clip>,
    pub status: Status,
    pub history: History,
    pub last_error: Option<String>,
    pub playback_pid: Option<u32>,
    pub adjust_word_index: usize,
    pub pending_chord: Option<Chord>,
    pub debug_mode: bool,
    pub debug_log: Vec<String>,
    pub total_time_discrepancy: i128,
    pub adjustments: AdjustmentLog,
}

/// How `post`, the session after `set_error_state` with `message`,
/// relates to `pre`, the session before.
pub open spec fn set_error_state_post(pre: App, message: String, post: App) -> bool {
    &&& post == (App { state: post.state, last_error: post.last_error, ..pre })
    &&& post.last_error matches Some(e) && e@ == message@
    &&& post.state matches AppState::Loading(m) && m@ == error_message(message@)
}

/// How `post`, the session after `load_clips` with `clips` and the
/// duration `total_duration`, relates to `pre`, the session before.
pub open spec fn load_clips_post(pre: App, clips: Vec<Clip>, total_duration: u64, post: App) -> bool {
    post == (App {
        state: AppState::Ready,
        store: ClipStore {
            clips: clips,
            current_index: clamped(pre.store.current_index as int, clips@.len() as int) as usize,
        },
        total_time_discrepancy: (transcript_end(document(clips@)) - total_duration) as i128,
        status: Status::Loaded {
            count: clips@.len() as usize,
            transcript_overruns: transcript_end(document(clips@)) - total_duration
                > DISCREPANCY_TOLERANCE_MS,
        },
        ..pre
    })
}

impl App {
    /// The history of this session as a timeline around its document.
    pub open spec fn timeline(&self) -> Timeline {
        self.history.timeline(self.store.clips@)
    }

    /// A session that waits for the document of `audio_path`.
    pub fn new(audio_path: String, project_path: Option<String>, debug_mode: bool) -> (app: App)
        ensures
            app.state matches AppState::Loading(m) && m@ == loading_message(),
            app.original_audio_path == audio_path,
            app.project_path == project_path,
            app.store.doc().len() == 0,
            app.store.current_index == 0,
            app.mode == Mode::Normal,
            app.command_input@.len() == 0,
            !app.should_quit,
            app.register is None,
            app.status is Welcome,
            app.timeline().undo.len() == 0,
            app.timeline().redo.len() == 0,
            app.last_error is None,
            app.playback_pid is None,
            app.adjust_word_index == 0,
            app.pending_chord is None,
            app.debug_mode == debug_mode,
            app.debug_log@.len() == 0,
            app.total_time_discrepancy == 0,
            app.adjustments@.len() == 0,
    {
        App {
            state: AppState::Loading("Checking cache or transcribing...".to_string()),
            original_audio_path: audio_path,
            project_path,
            store: ClipStore::new(),
            mode: Mode::Normal,
            command_input: String::new(),
            should_quit: false,
            register: None,
            status: Status::Welcome,
            history: History::new(),
            last_error: None,
            playback_pid: None,
            adjust_word_index: 0,
            pending_chord: None,
            debug_mode,
            debug_log: Vec::new(),
            total_time_discrepancy: 0,
            adjustments: AdjustmentLog::new(),
        }
    }

    /// Appends `message` to the debug log of a session in debug mode; any
    /// other session stays as it is.
    pub fn log_debug(&mut self, message: String)
        ensures
            old(self).debug_mode ==> *final(self) == (App {
                debug_log: final(self).debug_log,
                ..*old(self)
            }) && final(self).debug_log@ == old(self).debug_log@.push(message),
            !old(self).debug_mode ==> *final(self) == *old(self),
    {
        if self.debug_mode {
            self.debug_log.push(message);
        }
    }

    /// Pushes a snapshot of the document for undo and clears redo.
    pub fn save_undo_state(&mut self)
        ensures
            *final(self) == (App { history: final(self).history, ..*old(self) }),
            final(self).timeline() == old(self).timeline().checkpoint(),
    {
        self.history.save_checkpoint(&self.store.clips);
    }

    /// Puts the session into the error display: the loading state with
    /// `message` framed for the screen, and `message` kept as the last
    /// error.
    pub fn set_error_state(&mut self, message: String)
        ensures
            set_error_state_post(*old(self), message, *final(self)),
    {
        let mut framed = "ERROR: ".to_string();
        framed.append(message.as_str());
        framed.append(". Press 'q' or Ctrl+C to quit.");
        self.last_error = Some(message);
        self.state = AppState::Loading(framed);
    }

    /// Installs `clips` as the document of an audio asset that lasts
    /// `total_duration` milliseconds, and makes the session ready. The
    /// discrepancy is the transcript's end minus the duration; the status
    /// warns where it exceeds the tolerance. No clip is altered.
    pub fn load_clips(&mut self, clips: Vec<Clip>, total_duration: u64)
        ensures
            load_clips_post(*old(self), clips, total_duration, *final(self)),
    {
        let count = clips.len();
        let end: u64 = if count == 0 {
            0
        } else {
            clips[count - 1].end_time
        };
        let discrepancy: i128 = end as i128 - total_duration as i128;
        self.total_time_discrepancy = discrepancy;
        self.store.clips = clips;
        self.store.clamp_cursor();
        self.state = AppState::Ready;
        self.status = Status::Loaded {
            count,
            transcript_overruns: discrepancy > DISCREPANCY_TOLERANCE_MS,
        };
    }
}

} // verus!
