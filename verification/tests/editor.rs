use avim::app::{App, AppState, Chord, Mode, Status};
use avim::editor::AppEvent;
use avim::effects::{Effect, Failure};
use avim::keys::{bind, Intent, Key, KeyCode};
use avim::clip::{clone_document, Clip};
use avim::error::Error;
use avim::history::History;
use avim::store::ClipStore;
use avim::vim::{
    append_to_comment, delete_clip, next_clip, paste_clip, pop_from_comment, previous_clip, redo,
    undo, yank_clip,
};

fn clip(id: usize, transcript: &str) -> Clip {
    Clip {
        id,
        speaker: "S".to_string(),
        transcript: transcript.to_string(),
        start_time: (id as u64) * 1000,
        end_time: (id as u64) * 1000 + 900,
        comment: String::new(),
        is_manually_adjusted: false,
    }
}

fn ready(transcripts: &[&str]) -> App {
    let mut app = App::new("talk.wav".to_string(), None, false);
    let clips: Vec<Clip> =
        transcripts.iter().enumerate().map(|(i, t)| clip(i + 1, t)).collect();
    app.load_clips(clips, 100_000);
    app
}

fn texts(clips: &[Clip]) -> Vec<String> {
    clips.iter().map(|c| c.transcript.clone()).collect()
}

fn ids(app: &App) -> Vec<usize> {
    app.store.clips.iter().map(|c| c.id).collect()
}

fn key(c: char) -> Key {
    Key { code: KeyCode::Char(c), ctrl: false }
}

fn press(app: &mut App, keys: &str) {
    for c in keys.chars() {
        app.handle_key(key(c));
    }
}

#[test]
fn new_session_waits_for_its_document() {
    let app = App::new("a.wav".to_string(), Some("p.avim".to_string()), true);
    assert!(matches!(&app.state, AppState::Loading(m) if m == "Checking cache or transcribing..."));
    assert_eq!(app.original_audio_path, "a.wav");
    assert_eq!(app.project_path.as_deref(), Some("p.avim"));
    assert!(app.store.clips.is_empty());
    assert_eq!(app.store.current_index, 0);
    assert_eq!(app.mode, Mode::Normal);
    assert_eq!(app.command_input, "");
    assert!(!app.should_quit);
    assert!(app.register.is_none());
    assert!(matches!(app.status, Status::Welcome));
    assert!(app.history.undo_stack.is_empty() && app.history.redo_stack.is_empty());
    assert!(app.last_error.is_none());
    assert!(app.playback_pid.is_none());
    assert!(app.debug_mode);
    assert!(app.debug_log.is_empty());
    assert_eq!(app.total_time_discrepancy, 0);
    assert_eq!(app.adjustments.len(), 0);
}

#[test]
fn debug_log_only_grows_in_debug_mode() {
    let mut quiet = App::new("a.wav".to_string(), None, false);
    quiet.log_debug("x".to_string());
    assert!(quiet.debug_log.is_empty());
    let mut loud = App::new("a.wav".to_string(), None, true);
    loud.log_debug("x".to_string());
    loud.log_debug("y".to_string());
    assert_eq!(loud.debug_log, vec!["x", "y"]);
}

#[test]
fn error_state_frames_the_message_and_keeps_it() {
    let mut app = App::new("a.wav".to_string(), None, false);
    app.set_error_state("Could not get audio duration.".to_string());
    assert!(matches!(&app.state, AppState::Loading(m)
        if m == "ERROR: Could not get audio duration.. Press 'q' or Ctrl+C to quit."));
    assert_eq!(app.last_error.as_deref(), Some("Could not get audio duration."));
}

#[test]
fn discrepancy_above_one_second_warns() {
    let mut app = App::new("a.wav".to_string(), None, false);
    let mut c = clip(1, "x");
    c.end_time = 11_001;
    app.load_clips(vec![c], 10_000);
    assert!(matches!(app.state, AppState::Ready));
    assert_eq!(app.total_time_discrepancy, 1001);
    assert!(matches!(app.status, Status::Loaded { count: 1, transcript_overruns: true }));
}

#[test]
fn discrepancy_of_exactly_one_second_does_not_warn() {
    let mut app = App::new("a.wav".to_string(), None, false);
    let mut c = clip(1, "x");
    c.end_time = 11_000;
    app.load_clips(vec![c], 10_000);
    assert_eq!(app.total_time_discrepancy, 1000);
    assert!(matches!(app.status, Status::Loaded { count: 1, transcript_overruns: false }));
    assert_eq!(app.store.clips[0].end_time, 11_000);
}

#[test]
fn shorter_transcript_has_negative_discrepancy() {
    let mut app = App::new("a.wav".to_string(), None, false);
    app.load_clips(vec![], 10_000);
    assert_eq!(app.total_time_discrepancy, -10_000);
    assert!(matches!(app.status, Status::Loaded { count: 0, transcript_overruns: false }));
}

#[test]
fn history_round_trip_restores_documents() {
    let mut history = History::new();
    let mut doc = vec![clip(1, "a"), clip(2, "b")];
    let before = texts(&doc);
    history.save_checkpoint(&doc);
    doc[0].transcript = "changed".to_string();
    history.save_checkpoint(&doc);
    doc.remove(1);
    history.save_checkpoint(&doc);
    doc.push(clip(9, "z"));
    let after = texts(&doc);
    assert!(history.undo(&mut doc));
    assert!(history.undo(&mut doc));
    assert!(history.undo(&mut doc));
    assert_eq!(texts(&doc), before);
    assert!(!history.undo(&mut doc));
    assert_eq!(texts(&doc), before);
    assert!(history.redo(&mut doc));
    assert!(history.redo(&mut doc));
    assert!(history.redo(&mut doc));
    assert_eq!(texts(&doc), after);
    assert!(!history.redo(&mut doc));
    assert_eq!(history.undo_stack.len(), 3);
}

#[test]
fn checkpoint_clears_redo_and_snapshots_are_independent() {
    let mut history = History::new();
    let mut doc = vec![clip(1, "a")];
    history.save_checkpoint(&doc);
    doc[0].transcript.push_str(" more");
    assert_eq!(history.undo_stack[0][0].transcript, "a");
    assert!(history.undo(&mut doc));
    assert_eq!(history.redo_stack.len(), 1);
    history.save_checkpoint(&doc);
    assert!(history.redo_stack.is_empty());
    assert!(!history.redo(&mut doc));
    assert_eq!(texts(&clone_document(&doc)), vec!["a"]);
}

#[test]
fn store_primitives_keep_the_order() {
    let mut store = ClipStore::new();
    assert!(store.remove_at(0).is_none());
    assert!(store.insert_at(0, clip(1, "a")));
    assert!(store.insert_at(1, clip(3, "c")));
    assert!(store.insert_at(1, clip(2, "b")));
    assert!(!store.insert_at(5, clip(9, "z")));
    assert_eq!(texts(&store.clips), vec!["a", "b", "c"]);
    assert_eq!(store.len(), 3);
    store.current_index = 2;
    let removed = store.remove_at(2);
    assert_eq!(removed.map(|c| c.id), Some(3));
    assert_eq!(store.current_index, 1);
    let old = store.replace_at(0, clip(7, "A"));
    assert_eq!(old.ok().map(|c| c.id), Some(1));
    assert_eq!(texts(&store.clips), vec!["A", "b"]);
    let back = store.replace_at(2, clip(8, "x"));
    assert_eq!(back.err().map(|c| c.id), Some(8));
    assert_eq!(store.get(1).map(|c| c.id), Some(2));
    assert!(store.get(2).is_none());
    assert_eq!(store.current().map(|c| c.id), Some(2));
    assert!(store.remove_at(0).is_some());
    assert!(store.remove_at(0).is_some());
    assert_eq!(store.current_index, 0);
    assert!(store.current().is_none());
}

#[test]
fn store_moves_words_between_neighbours() {
    let mut store = ClipStore::new();
    store.insert_at(0, clip(1, "a b"));
    store.insert_at(1, clip(2, "c  d e"));
    assert!(!store.move_words(1, 1));
    assert!(!store.move_words(0, 4));
    assert_eq!(texts(&store.clips), vec!["a b", "c  d e"]);
    assert!(store.move_words(0, 2));
    assert_eq!(texts(&store.clips), vec!["a b c d", "e"]);
    assert!(store.move_words(0, 0));
    assert_eq!(texts(&store.clips), vec!["a b c d ", "e"]);
    store.flag_adjusted(0);
    assert!(store.clips[0].is_manually_adjusted && store.clips[1].is_manually_adjusted);
    store.flag_adjusted(1);
}

#[test]
fn cursor_moves_with_clamping() {
    let mut app = ready(&["a", "b", "c"]);
    previous_clip(&mut app);
    assert_eq!(app.store.current_index, 0);
    next_clip(&mut app);
    next_clip(&mut app);
    assert_eq!(app.store.current_index, 2);
    next_clip(&mut app);
    assert_eq!(app.store.current_index, 2);
    previous_clip(&mut app);
    assert_eq!(app.store.current_index, 1);
    let mut empty = ready(&[]);
    next_clip(&mut empty);
    previous_clip(&mut empty);
    assert_eq!(empty.store.current_index, 0);
}

#[test]
fn delete_cuts_into_the_register_and_can_be_undone() {
    let mut app = ready(&["a", "b", "c"]);
    app.store.current_index = 2;
    delete_clip(&mut app);
    assert_eq!(ids(&app), vec![1, 2]);
    assert_eq!(app.store.current_index, 1);
    assert_eq!(app.register.as_ref().map(|c| c.id), Some(3));
    assert!(matches!(app.status, Status::Deleted));
    undo(&mut app);
    assert_eq!(ids(&app), vec![1, 2, 3]);
    assert!(matches!(app.status, Status::Undone));
    redo(&mut app);
    assert_eq!(ids(&app), vec![1, 2]);
    assert!(matches!(app.status, Status::Redone));
    redo(&mut app);
    assert!(matches!(app.status, Status::NothingToRedo));
}

#[test]
fn delete_on_an_empty_document_changes_nothing() {
    let mut app = ready(&[]);
    delete_clip(&mut app);
    assert!(app.history.undo_stack.is_empty());
    assert!(app.register.is_none());
    undo(&mut app);
    assert!(matches!(app.status, Status::NothingToUndo));
}

#[test]
fn yank_and_paste_insert_behind_the_cursor() {
    let mut app = ready(&["a", "b", "c"]);
    paste_clip(&mut app);
    assert!(matches!(app.status, Status::NothingToPaste));
    assert!(app.history.undo_stack.is_empty());
    yank_clip(&mut app);
    assert!(matches!(app.status, Status::Yanked));
    assert!(app.history.undo_stack.is_empty());
    app.store.current_index = 1;
    paste_clip(&mut app);
    assert_eq!(ids(&app), vec![1, 2, 1, 3]);
    assert_eq!(app.store.current_index, 1);
    assert!(matches!(app.status, Status::Pasted));
    assert_eq!(app.history.undo_stack.len(), 1);
    let mut empty = ready(&[]);
    empty.register = Some(clip(5, "e"));
    paste_clip(&mut empty);
    assert_eq!(ids(&empty), vec![5]);
}

#[test]
fn undo_after_n_edits_restores_and_redo_replays() {
    let mut app = ready(&["a", "b", "c", "d"]);
    let before = ids(&app);
    delete_clip(&mut app);
    yank_clip(&mut app);
    paste_clip(&mut app);
    delete_clip(&mut app);
    let after = ids(&app);
    for _ in 0..3 {
        undo(&mut app);
    }
    assert_eq!(ids(&app), before);
    for _ in 0..3 {
        redo(&mut app);
    }
    assert_eq!(ids(&app), after);
}

#[test]
fn comment_is_edited_in_place() {
    let mut app = ready(&["a", "b"]);
    app.store.current_index = 1;
    pop_from_comment(&mut app);
    append_to_comment(&mut app, 'h');
    append_to_comment(&mut app, 'é');
    append_to_comment(&mut app, 'y');
    pop_from_comment(&mut app);
    assert_eq!(app.store.clips[1].comment, "hé");
    assert_eq!(app.store.clips[1].transcript, "b");
    assert_eq!(app.store.clips[0].comment, "");
    assert!(app.history.undo_stack.is_empty());
    let mut empty = ready(&[]);
    append_to_comment(&mut empty, 'x');
    pop_from_comment(&mut empty);
    assert!(empty.store.clips.is_empty());
}

#[test]
fn keys_are_bound_by_mode() {
    let ctrl = |c: char| Key { code: KeyCode::Char(c), ctrl: true };
    let plain = |code: KeyCode| Key { code, ctrl: false };
    assert_eq!(bind(false, Mode::Normal, ctrl('c')), Intent::ForceQuit);
    assert_eq!(bind(true, Mode::Insert, ctrl('c')), Intent::ForceQuit);
    assert_eq!(bind(false, Mode::Normal, key('q')), Intent::Quit);
    assert_eq!(bind(false, Mode::Normal, key('j')), Intent::Unbound);
    assert_eq!(bind(true, Mode::Normal, key(':')), Intent::EnterCommand);
    assert_eq!(bind(true, Mode::Normal, key('q')), Intent::Quit);
    assert_eq!(bind(true, Mode::Normal, key('j')), Intent::NextClip);
    assert_eq!(bind(true, Mode::Normal, key('k')), Intent::PreviousClip);
    assert_eq!(bind(true, Mode::Normal, key('p')), Intent::Paste);
    assert_eq!(bind(true, Mode::Normal, key('u')), Intent::Undo);
    assert_eq!(bind(true, Mode::Normal, ctrl('r')), Intent::Redo);
    assert_eq!(bind(true, Mode::Normal, key('r')), Intent::Unbound);
    assert_eq!(bind(true, Mode::Normal, key('i')), Intent::EnterInsert);
    assert_eq!(bind(true, Mode::Normal, key('m')), Intent::EnterAdjust);
    assert_eq!(bind(true, Mode::Normal, key('P')), Intent::TogglePlayFrom);
    assert_eq!(bind(true, Mode::Normal, key(' ')), Intent::TogglePlayClip);
    assert_eq!(bind(true, Mode::Normal, key('d')), Intent::DeleteCurrentClip);
    assert_eq!(bind(true, Mode::Normal, key('y')), Intent::YankCurrentClip);
    assert_eq!(bind(true, Mode::Normal, plain(KeyCode::Enter)), Intent::Unbound);
    assert_eq!(bind(true, Mode::Insert, key('q')), Intent::Character('q'));
    assert_eq!(bind(true, Mode::Insert, plain(KeyCode::Esc)), Intent::Exit);
    assert_eq!(bind(true, Mode::Insert, plain(KeyCode::Backspace)), Intent::Backspace);
    assert_eq!(bind(true, Mode::Command, plain(KeyCode::Enter)), Intent::Submit);
    assert_eq!(bind(true, Mode::Command, key('w')), Intent::Character('w'));
    assert_eq!(bind(true, Mode::Command, plain(KeyCode::Esc)), Intent::Exit);
    assert_eq!(bind(true, Mode::Adjust, key('w')), Intent::NextWord);
    assert_eq!(bind(true, Mode::Adjust, key('b')), Intent::PreviousWord);
    assert_eq!(bind(true, Mode::Adjust, plain(KeyCode::Enter)), Intent::Confirm);
    assert_eq!(bind(true, Mode::Adjust, plain(KeyCode::Esc)), Intent::Exit);
    assert_eq!(bind(true, Mode::Adjust, key('x')), Intent::Unbound);
    assert_eq!(bind(true, Mode::Visual, key('j')), Intent::Unbound);
}

#[test]
fn loading_session_only_quits() {
    let mut app = App::new("a.wav".to_string(), None, false);
    press(&mut app, "j:id");
    assert_eq!(app.mode, Mode::Normal);
    assert!(!app.should_quit);
    assert!(app.pending_chord.is_none());
    press(&mut app, "q");
    assert!(app.should_quit);
}

#[test]
fn forced_quit_is_honoured_in_every_mode() {
    for mode in [Mode::Normal, Mode::Command, Mode::Insert, Mode::Adjust, Mode::Visual] {
        let mut app = ready(&["a", "b"]);
        app.mode = mode;
        app.handle_key(Key { code: KeyCode::Char('c'), ctrl: true });
        assert!(app.should_quit);
        assert_eq!(app.mode, mode);
        assert_eq!(app.command_input, "");
        assert_eq!(app.store.clips[0].comment, "");
    }
}

#[test]
fn chord_needs_the_same_intent_twice() {
    let mut app = ready(&["a", "b", "c"]);
    press(&mut app, "d");
    assert_eq!(app.pending_chord, Some(Chord::Delete));
    assert_eq!(ids(&app), vec![1, 2, 3]);
    press(&mut app, "d");
    assert!(app.pending_chord.is_none());
    assert_eq!(ids(&app), vec![2, 3]);
    press(&mut app, "dj");
    assert!(app.pending_chord.is_none());
    assert_eq!(app.store.current_index, 0);
    assert_eq!(ids(&app), vec![2, 3]);
    press(&mut app, "dy");
    assert!(app.pending_chord.is_none());
    assert!(matches!(app.status, Status::Deleted));
    press(&mut app, "jyyp");
    assert_eq!(ids(&app), vec![2, 3, 3]);
    press(&mut app, "dq");
    assert!(!app.should_quit);
}

#[test]
fn normal_mode_keys_drive_the_editor() {
    let mut app = ready(&["a", "b"]);
    press(&mut app, "jddu");
    assert_eq!(ids(&app), vec![1, 2]);
    app.handle_key(Key { code: KeyCode::Char('r'), ctrl: true });
    assert_eq!(ids(&app), vec![1]);
    press(&mut app, "i");
    assert_eq!(app.mode, Mode::Insert);
    press(&mut app, "ok:q");
    app.handle_key(Key { code: KeyCode::Backspace, ctrl: false });
    assert_eq!(app.store.clips[0].comment, "ok:");
    app.handle_key(Key { code: KeyCode::Esc, ctrl: false });
    assert_eq!(app.mode, Mode::Normal);
    press(&mut app, "m");
    assert_eq!(app.mode, Mode::Normal);
    assert!(matches!(app.status, Status::CannotAdjustLastClip));
    press(&mut app, "q");
    assert!(app.should_quit);
}

#[test]
fn adjust_mode_keys_select_and_confirm() {
    let mut app = ready(&["A B", "C D E"]);
    press(&mut app, "mwwbw");
    assert_eq!(app.mode, Mode::Adjust);
    assert_eq!(app.adjust_word_index, 2);
    press(&mut app, "b");
    app.handle_key(Key { code: KeyCode::Enter, ctrl: false });
    assert_eq!(app.mode, Mode::Normal);
    assert_eq!(texts(&app.store.clips), vec!["A B C D", "E"]);
    press(&mut app, "u");
    assert_eq!(texts(&app.store.clips), vec!["A B", "C D E"]);
    assert!(!app.store.clips[0].is_manually_adjusted);
    press(&mut app, "mw");
    app.handle_key(Key { code: KeyCode::Esc, ctrl: false });
    assert_eq!(app.mode, Mode::Normal);
    assert_eq!(texts(&app.store.clips), vec!["A B", "C D E"]);
    assert_eq!(app.adjustments.samples(), vec![2]);
}

#[test]
fn visual_mode_takes_no_intent() {
    let mut app = ready(&["a", "b"]);
    app.mode = Mode::Visual;
    press(&mut app, "jdd:iq");
    app.handle_key(Key { code: KeyCode::Esc, ctrl: false });
    assert_eq!(app.mode, Mode::Visual);
    assert_eq!(app.store.current_index, 0);
    assert_eq!(ids(&app), vec![1, 2]);
    assert!(!app.should_quit);
}

fn submit(app: &mut App, line: &str) -> Effect {
    press(app, ":");
    assert_eq!(app.mode, Mode::Command);
    press(app, line);
    assert_eq!(app.command_input, line);
    let effect = app.handle_key(Key { code: KeyCode::Enter, ctrl: false });
    assert_eq!(app.mode, Mode::Normal);
    assert_eq!(app.command_input, "");
    effect
}

#[test]
fn command_line_is_edited_and_discarded() {
    let mut app = ready(&["a"]);
    press(&mut app, ":helpx");
    app.handle_key(Key { code: KeyCode::Backspace, ctrl: false });
    assert_eq!(app.command_input, "help");
    app.handle_key(Key { code: KeyCode::Esc, ctrl: false });
    assert_eq!(app.mode, Mode::Normal);
    assert_eq!(app.command_input, "");
    assert!(matches!(app.status, Status::Loaded { .. }));
    press(&mut app, ":");
    app.handle_key(Key { code: KeyCode::Backspace, ctrl: false });
    assert_eq!(app.command_input, "");
}

#[test]
fn commands_dispatch() {
    let mut app = ready(&["a"]);
    assert!(matches!(submit(&mut app, ""), Effect::Nothing));
    assert!(matches!(app.status, Status::Loaded { .. }));
    assert!(matches!(submit(&mut app, "help"), Effect::Nothing));
    assert!(matches!(app.status, Status::Help));
    assert!(matches!(submit(&mut app, "bogus  arg"), Effect::Nothing));
    assert!(matches!(&app.status, Status::UnknownCommand(l) if l == "bogus  arg"));
    assert!(matches!(submit(&mut app, "autofix"), Effect::Nothing));
    assert!(matches!(app.status, Status::Refused(Error::InsufficientAdjustmentSamples)));
    assert!(!app.should_quit);
    assert!(matches!(submit(&mut app, "q!"), Effect::Nothing));
    assert!(app.should_quit);
}

#[test]
fn write_resolves_the_project_path() {
    let mut app = ready(&["a"]);
    assert!(matches!(submit(&mut app, "w"), Effect::Nothing));
    assert!(matches!(app.status, Status::NoProjectFile));
    assert!(matches!(submit(&mut app, "w talk.avim"), Effect::SaveProject { path } if path == "talk.avim"));
    assert_eq!(app.project_path.as_deref(), Some("talk.avim"));
    assert!(matches!(&app.status, Status::Saving(p) if p == "talk.avim"));
    app.save_finished("talk.avim".to_string(), None);
    assert!(matches!(&app.status, Status::Saved(p) if p == "talk.avim"));
    assert!(app.last_error.is_none());
    assert!(matches!(submit(&mut app, "w"), Effect::SaveProject { path } if path == "talk.avim"));
    app.save_finished(
        "talk.avim".to_string(),
        Some(Failure { error: Error::IoFailed, detail: "disk full".to_string() }),
    );
    assert!(matches!(app.status, Status::SaveFailed(Error::IoFailed)));
    assert_eq!(app.last_error.as_deref(), Some("disk full"));
}

#[test]
fn export_and_last_error_go_through_effects() {
    let mut app = ready(&["a"]);
    assert!(matches!(submit(&mut app, "export"), Effect::Nothing));
    assert!(matches!(app.status, Status::ExportNeedsFilename));
    assert!(matches!(submit(&mut app, "lasterror"), Effect::Nothing));
    assert!(matches!(app.status, Status::NoLastError));
    assert!(matches!(submit(&mut app, "export out.wav"), Effect::Export { filename } if filename == "out.wav"));
    assert!(matches!(&app.status, Status::Exporting(f) if f == "out.wav"));
    app.export_finished(
        "out.wav".to_string(),
        Some(Failure { error: Error::IoFailed, detail: "SoX failed to trim clip #0".to_string() }),
    );
    assert!(matches!(app.status, Status::ExportFailed(Error::IoFailed)));
    assert!(matches!(submit(&mut app, "lasterror"),
        Effect::CopyToClipboard { text } if text == "SoX failed to trim clip #0"));
    assert!(matches!(app.status, Status::CopyingLastError));
    app.clipboard_finished(Some(Error::ClipboardUnavailable));
    assert!(matches!(app.status, Status::ClipboardFailed(Error::ClipboardUnavailable)));
    app.clipboard_finished(None);
    assert!(matches!(app.status, Status::LastErrorCopied));
    app.export_finished("out.wav".to_string(), None);
    assert!(matches!(&app.status, Status::Exported(f) if f == "out.wav"));
    assert_eq!(app.last_error.as_deref(), Some("SoX failed to trim clip #0"));
}

#[test]
fn playback_toggles() {
    let mut app = ready(&["a", "b"]);
    press(&mut app, "j");
    assert!(matches!(app.handle_key(key(' ')), Effect::PlayClip { start_time: 2000, end_time: 2900 }));
    assert!(matches!(app.status, Status::PlayingClip(1)));
    app.playback_started(77);
    assert_eq!(app.playback_pid, Some(77));
    assert!(matches!(app.handle_key(key(' ')), Effect::StopPlayback { pid: 77 }));
    assert!(app.playback_pid.is_none());
    assert!(matches!(app.status, Status::PlaybackStopped));
    assert!(matches!(app.handle_key(key('P')), Effect::PlayFrom { index: 1 }));
    assert!(matches!(app.status, Status::PlayingFrom(1)));
    app.playback_failed();
    assert!(matches!(app.status, Status::PlaybackFailed));
    app.playback_started(5);
    assert!(matches!(app.handle_key(key('P')), Effect::StopPlayback { pid: 5 }));
    let mut empty = ready(&[]);
    assert!(matches!(empty.handle_key(key(' ')), Effect::Nothing));
    app.note_progress(2, 7);
    assert!(matches!(app.status, Status::Transcribing { chunk: 2, of: 7 }));
}

#[test]
fn no_key_enters_visual_mode_or_loses_the_cursor() {
    let keys = "jkm wb:qidypuP d\u{1b}\n\u{8}xdd";
    for start in [Mode::Normal, Mode::Insert, Mode::Command, Mode::Adjust] {
        let mut app = ready(&["a b c", "d e", "f"]);
        app.mode = start;
        for round in 0..3 {
            for c in keys.chars() {
                let key = match c {
                    '\u{1b}' => Key { code: KeyCode::Esc, ctrl: false },
                    '\n' => Key { code: KeyCode::Enter, ctrl: false },
                    '\u{8}' => Key { code: KeyCode::Backspace, ctrl: false },
                    'q' => Key { code: KeyCode::Other, ctrl: false },
                    other => Key { code: KeyCode::Char(other), ctrl: round == 1 && other == 'r' },
                };
                app.handle_key(key);
                assert_ne!(app.mode, Mode::Visual);
                let n = app.store.clips.len();
                assert!(app.store.current_index < n || (n == 0 && app.store.current_index == 0));
            }
        }
    }
}

#[test]
fn events_reach_the_session() {
    let mut app = App::new("a.wav".to_string(), None, false);
    assert!(matches!(app.update(AppEvent::StatusUpdate(1, 3)), Effect::Nothing));
    assert!(matches!(app.status, Status::Transcribing { chunk: 1, of: 3 }));
    assert!(matches!(app.update(AppEvent::Input(key('j'))), Effect::Nothing));
    assert_eq!(app.store.current_index, 0);
    let clips = vec![clip(1, "a"), clip(2, "b")];
    assert!(matches!(app.update(AppEvent::TranscriptionSuccess(clips, 2_000)), Effect::Nothing));
    assert!(matches!(app.state, AppState::Ready));
    assert!(matches!(app.status, Status::Loaded { count: 2, transcript_overruns: false }));
    assert_eq!(app.total_time_discrepancy, 900);
    assert!(matches!(app.update(AppEvent::Input(key('j'))), Effect::Nothing));
    assert_eq!(app.store.current_index, 1);
    assert!(matches!(app.update(AppEvent::Input(key(' '))), Effect::PlayClip { start_time: 2000, end_time: 2900 }));
    let failed = AppEvent::TranscriptionFailure("Failed to create chunk 2".to_string());
    assert!(matches!(app.update(failed), Effect::Nothing));
    assert!(matches!(&app.state, AppState::Loading(m)
        if m == "ERROR: Failed to create chunk 2. Press 'q' or Ctrl+C to quit."));
    assert!(matches!(app.update(AppEvent::Input(key('q'))), Effect::Nothing));
    assert!(app.should_quit);
}

#[test]
fn reloading_clamps_the_cursor() {
    let mut app = ready(&["a", "b", "c"]);
    app.store.current_index = 2;
    app.load_clips(vec![clip(1, "only")], 100_000);
    assert_eq!(app.store.current_index, 0);
    app.load_clips(vec![], 100_000);
    assert_eq!(app.store.current_index, 0);
}

#[test]
fn serialization_failure_is_kept_as_last_error() {
    let mut app = ready(&["a"]);
    app.save_finished(
        "p.avim".to_string(),
        Some(Failure { error: Error::SerializationFailed, detail: "key must be a string".to_string() }),
    );
    assert!(matches!(app.status, Status::SaveFailed(Error::SerializationFailed)));
    assert_eq!(app.last_error.as_deref(), Some("key must be a string"));
}
