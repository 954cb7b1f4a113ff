//! The state machine of the editor: what each intent does in each state
//! and mode.

use vstd::prelude::*;
use crate::app::{App, AppState, Chord, Mode, Status, load_clips_post, set_error_state_post};
use crate::clip::Clip;
use crate::autofix::{
    adjust_next_word, adjust_next_word_post, adjust_previous_word, adjust_previous_word_post,
    confirm_adjustment, confirm_adjustment_post, enter_adjust_mode, enter_adjust_mode_post,
};
use crate::command::process_command_post;
use crate::effects::{Effect, toggle_play_clip_post, toggle_play_from_post};
use crate::keys::{Intent, Key, bind, binding};
use crate::text::{pop_char, push_char};
use crate::vim::{
    append_to_comment, append_to_comment_post, delete_clip, delete_clip_post, next_clip,
    next_clip_post, paste_clip, paste_clip_post, pop_from_comment, pop_from_comment_post,
    previous_clip, previous_clip_post, redo, redo_post, undo, undo_post, yank_clip,
    yank_clip_post,
};

verus! {

/// What an intent makes of a ready session in normal mode without a
/// pending chord. The first occurrence of a chord's intent arms the chord.
pub open spec fn normal_post(pre: App, intent: Intent, post: App, effect: Effect) -> bool {
    match intent {
        Intent::EnterCommand => post == (App { mode: Mode::Command, ..pre }) && effect is Nothing,
        Intent::EnterInsert => post == (App { mode: Mode::Insert, ..pre }) && effect is Nothing,
        Intent::EnterAdjust => enter_adjust_mode_post(pre, post) && effect is Nothing,
        Intent::Quit => post == (App { should_quit: true, ..pre }) && effect is Nothing,
        Intent::NextClip => next_clip_post(pre, post) && effect is Nothing,
        Intent::PreviousClip => previous_clip_post(pre, post) && effect is Nothing,
        Intent::Paste => paste_clip_post(pre, post) && effect is Nothing,
        Intent::Undo => undo_post(pre, post) && effect is Nothing,
        Intent::Redo => redo_post(pre, post) && effect is Nothing,
        Intent::TogglePlayFrom => toggle_play_from_post(pre, post, effect),
        Intent::TogglePlayClip => toggle_play_clip_post(pre, post, effect),
        Intent::DeleteCurrentClip => post == (App { pending_chord: Some(Chord::Delete), ..pre })
            && effect is Nothing,
        Intent::YankCurrentClip => post == (App { pending_chord: Some(Chord::Yank), ..pre })
            && effect is Nothing,
        _ => post == pre && effect is Nothing,
    }
}

/// What an intent makes of a ready session in normal mode with the chord
/// `chord` pending: the chord's own intent performs it, any other intent
/// only cancels it.
pub open spec fn chord_post(pre: App, chord: Chord, intent: Intent, post: App) -> bool {
    let cancelled = App { pending_chord: None, ..pre };
    if chord == Chord::Delete && intent == Intent::DeleteCurrentClip {
        delete_clip_post(cancelled, post)
    } else if chord == Chord::Yank && intent == Intent::YankCurrentClip {
        yank_clip_post(cancelled, post)
    } else {
        post == cancelled
    }
}

/// What an intent makes of a ready session in insert mode: characters go
/// to the comment of the clip under the cursor.
pub open spec fn insert_post(pre: App, intent: Intent, post: App) -> bool {
    match intent {
        Intent::Exit => post == (App { mode: Mode::Normal, ..pre }),
        Intent::Character(c) => append_to_comment_post(pre, c, post),
        Intent::Backspace => pop_from_comment_post(pre, post),
        _ => post == pre,
    }
}

/// What an intent makes of a ready session in command mode: characters
/// build the line, leaving discards it, submitting runs it.
pub open spec fn command_post(pre: App, intent: Intent, post: App, effect: Effect) -> bool {
    match intent {
        Intent::Submit => process_command_post(pre, post, effect),
        Intent::Character(c) => {
            &&& post == (App { command_input: post.command_input, ..pre })
            &&& post.command_input@ == pre.command_input@.push(c)
            &&& effect is Nothing
        },
        Intent::Backspace => {
            &&& post == (App { command_input: post.command_input, ..pre })
            &&& post.command_input@ == if pre.command_input@.len() > 0 {
                pre.command_input@.drop_last()
            } else {
                pre.command_input@
            }
            &&& effect is Nothing
        },
        Intent::Exit => {
            &&& post == (App { command_input: post.command_input, mode: Mode::Normal, ..pre })
            &&& post.command_input@.len() == 0
            &&& effect is Nothing
        },
        _ => post == pre && effect is Nothing,
    }
}

/// What an intent makes of a ready session in adjust mode.
pub open spec fn adjust_post(pre: App, intent: Intent, post: App) -> bool {
    match intent {
        Intent::Exit => post == (App { mode: Mode::Normal, ..pre }),
        Intent::NextWord => adjust_next_word_post(pre, post),
        Intent::PreviousWord => adjust_previous_word_post(pre, post),
        Intent::Confirm => confirm_adjustment_post(pre, post),
        _ => post == pre,
    }
}

/// What an intent makes of the session. Forced quitting is honoured
/// everywhere. While the document loads only quitting does anything. A
/// ready session goes by its mode; visual mode takes no intent.
pub open spec fn handle_post(pre: App, intent: Intent, post: App, effect: Effect) -> bool {
    if intent == Intent::ForceQuit {
        post == (App { should_quit: true, ..pre }) && effect is Nothing
    } else if pre.state is Loading {
        &&& effect is Nothing
        &&& if intent == Intent::Quit {
            post == (App { should_quit: true, ..pre })
        } else {
            post == pre
        }
    } else {
        match pre.mode {
            Mode::Normal => match pre.pending_chord {
                Some(chord) => chord_post(pre, chord, intent, post) && effect is Nothing,
                None => normal_post(pre, intent, post, effect),
            },
            Mode::Insert => insert_post(pre, intent, post) && effect is Nothing,
            Mode::Command => command_post(pre, intent, post, effect),
            Mode::Adjust => adjust_post(pre, intent, post) && effect is Nothing,
            Mode::Visual => post == pre && effect is Nothing,
        }
    }
}

/// No intent takes a session into visual mode.
pub proof fn law_visual_is_never_entered(pre: App, intent: Intent, post: App, effect: Effect)
    requires
        handle_post(pre, intent, post, effect),
        pre.mode != Mode::Visual,
    ensures
        post.mode != Mode::Visual,
{
}

/// Whether the cursor of the session is on a clip, or at 0 in a session
/// without clips.
pub open spec fn cursor_in_range(app: App) -> bool {
    app.store.current_index < app.store.doc().len() || (app.store.doc().len() == 0
        && app.store.current_index == 0)
}

/// No intent takes the cursor out of range.
pub proof fn law_cursor_stays_in_range(pre: App, intent: Intent, post: App, effect: Effect)
    requires
        handle_post(pre, intent, post, effect),
        cursor_in_range(pre),
    ensures
        cursor_in_range(post),
{
}

impl App {
    /// Handles one intent in normal mode without a pending chord.
    fn handle_normal(&mut self, intent: Intent) -> (effect: Effect)
        ensures
            normal_post(*old(self), intent, *final(self), effect),
    {
        match intent {
            Intent::EnterCommand => {
                self.mode = Mode::Command;
            },
            Intent::EnterInsert => {
                self.mode = Mode::Insert;
            },
            Intent::EnterAdjust => {
                enter_adjust_mode(self);
            },
            Intent::Quit => {
                self.should_quit = true;
            },
            Intent::NextClip => {
                next_clip(self);
            },
            Intent::PreviousClip => {
                previous_clip(self);
            },
            Intent::Paste => {
                paste_clip(self);
            },
            Intent::Undo => {
                undo(self);
            },
            Intent::Redo => {
                redo(self);
            },
            Intent::TogglePlayFrom => {
                return self.toggle_play_from();
            },
            Intent::TogglePlayClip => {
                return self.toggle_play_clip();
            },
            Intent::DeleteCurrentClip => {
                self.pending_chord = Some(Chord::Delete);
            },
            Intent::YankCurrentClip => {
                self.pending_chord = Some(Chord::Yank);
            },
            _ => {},
        }
        Effect::Nothing
    }

    /// Handles one intent in command mode.
    fn handle_command(&mut self, intent: Intent) -> (effect: Effect)
        ensures
            command_post(*old(self), intent, *final(self), effect),
    {
        match intent {
            Intent::Submit => {
                return self.process_command();
            },
            Intent::Character(c) => {
                push_char(&mut self.command_input, c);
            },
            Intent::Backspace => {
                let _ = pop_char(&mut self.command_input);
            },
            Intent::Exit => {
                self.mode = Mode::Normal;
                self.command_input = String::new();
            },
            _ => {},
        }
        Effect::Nothing
    }

    /// Handles one intent: the state machine of the editor.
    pub fn handle(&mut self, intent: Intent) -> (effect: Effect)
        ensures
            handle_post(*old(self), intent, *final(self), effect),
    {
        if intent == Intent::ForceQuit {
            self.should_quit = true;
            return Effect::Nothing;
        }
        let ready = match &self.state {
            AppState::Ready => true,
            AppState::Loading(_) => false,
        };
        if !ready {
            if intent == Intent::Quit {
                self.should_quit = true;
            }
            return Effect::Nothing;
        }
        match self.mode {
            Mode::Normal => match self.pending_chord {
                Some(chord) => {
                    self.pending_chord = None;
                    if chord == Chord::Delete && intent == Intent::DeleteCurrentClip {
                        delete_clip(self);
                    } else if chord == Chord::Yank && intent == Intent::YankCurrentClip {
                        yank_clip(self);
                    }
                    Effect::Nothing
                },
                None => self.handle_normal(intent),
            },
            Mode::Insert => {
                match intent {
                    Intent::Exit => {
                        self.mode = Mode::Normal;
                    },
                    Intent::Character(c) => {
                        append_to_comment(self, c);
                    },
                    Intent::Backspace => {
                        pop_from_comment(self);
                    },
                    _ => {},
                }
                Effect::Nothing
            },
            Mode::Command => self.handle_command(intent),
            Mode::Adjust => {
                match intent {
                    Intent::Exit => {
                        self.mode = Mode::Normal;
                    },
                    Intent::NextWord => {
                        adjust_next_word(self);
                    },
                    Intent::PreviousWord => {
                        adjust_previous_word(self);
                    },
                    Intent::Confirm => {
                        confirm_adjustment(self);
                    },
                    _ => {},
                }
                Effect::Nothing
            },
            Mode::Visual => Effect::Nothing,
        }
    }

    /// Handles one key event: the intent that the key is bound to.
    pub fn handle_key(&mut self, key: Key) -> (effect: Effect)
        ensures
            handle_post(
                *old(self),
                binding(old(self).state is Ready, old(self).mode, key),
                *final(self),
                effect,
            ),
    {
        let ready = match &self.state {
            AppState::Ready => true,
            AppState::Loading(_) => false,
        };
        let intent = bind(ready, self.mode, key);
        self.handle(intent)
    }
}

/// What reaches the session from outside: a key, or news of the
/// ingestion.
#[derive(Debug)]
pub enum AppEvent {
    /// A key was pressed.
    Input(Key),
    /// The document is there, with the duration of the audio in
    /// milliseconds.
    TranscriptionSuccess(Vec<Clip>, u64),
    /// The ingestion failed, with the text to show.
    TranscriptionFailure(String),
    /// The window of this number, counted from 1, of so many is being
    /// transcribed.
    StatusUpdate(u64, u64),
}

/// What an event makes of the session: a key is handled by its binding,
/// the document is loaded, a failure is displayed, progress is shown.
pub open spec fn update_post(pre: App, event: AppEvent, post: App, effect: Effect) -> bool {
    match event {
        AppEvent::Input(key) => handle_post(
            pre,
            binding(pre.state is Ready, pre.mode, key),
            post,
            effect,
        ),
        AppEvent::TranscriptionSuccess(clips, duration) => load_clips_post(
            pre,
            clips,
            duration,
            post,
        ) && effect is Nothing,
        AppEvent::TranscriptionFailure(message) => set_error_state_post(pre, message, post)
            && effect is Nothing,
        AppEvent::StatusUpdate(chunk, of) => post == (App {
            status: Status::Transcribing { chunk, of },
            ..pre
        }) && effect is Nothing,
    }
}

/// No event takes the cursor out of range, and none takes a session into
/// visual mode.
pub proof fn law_events_keep_the_session_sound(pre: App, event: AppEvent, post: App, effect: Effect)
    requires
        update_post(pre, event, post, effect),
        cursor_in_range(pre),
        pre.mode != Mode::Visual,
    ensures
        cursor_in_range(post),
        post.mode != Mode::Visual,
{
    if let AppEvent::Input(key) = event {
        let intent = binding(pre.state is Ready, pre.mode, key);
        law_cursor_stays_in_range(pre, intent, post, effect);
        law_visual_is_never_entered(pre, intent, post, effect);
    }
}

impl App {
    /// Takes in one event and says what the outside has to do for it.
    pub fn update(&mut self, event: AppEvent) -> (effect: Effect)
        ensures
            update_post(*old(self), event, *final(self), effect),
    {
        match event {
            AppEvent::Input(key) => self.handle_key(key),
            AppEvent::TranscriptionSuccess(clips, duration) => {
                self.load_clips(clips, duration);
                Effect::Nothing
            },
            AppEvent::TranscriptionFailure(message) => {
                self.set_error_state(message);
                Effect::Nothing
            },
            AppEvent::StatusUpdate(chunk, of) => {
                self.note_progress(chunk, of);
                Effect::Nothing
            },
        }
    }
}

} // verus!
