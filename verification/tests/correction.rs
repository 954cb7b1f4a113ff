use avim::app::{App, Mode, Status};
use avim::autofix::{
    adjust_next_word, adjust_previous_word, autofix_transcripts, confirm_adjustment,
    enter_adjust_mode,
};
use avim::clip::Clip;
use avim::error::Error;

fn clip(id: usize, transcript: &str, start: u64, end: u64) -> Clip {
    Clip {
        id,
        speaker: "S1".to_string(),
        transcript: transcript.to_string(),
        start_time: start,
        end_time: end,
        comment: String::new(),
        is_manually_adjusted: false,
    }
}

fn session(transcripts: &[&str]) -> App {
    let mut app = App::new("talk.wav".to_string(), None, false);
    let mut clips = Vec::new();
    for (i, t) in transcripts.iter().enumerate() {
        clips.push(clip(i + 1, t, (i as u64) * 1000, (i as u64 + 1) * 1000));
    }
    let duration = (transcripts.len() as u64) * 1000;
    app.load_clips(clips, duration);
    app
}

fn transcripts(app: &App) -> Vec<String> {
    app.store.clips.iter().map(|c| c.transcript.clone()).collect()
}

fn teach(app: &mut App, samples: &[usize]) {
    for s in samples {
        assert!(app.adjustments.record(*s));
    }
}

#[test]
fn manual_correction_moves_selected_words() {
    let mut app = session(&["A B", "C D E"]);
    enter_adjust_mode(&mut app);
    assert_eq!(app.mode, Mode::Adjust);
    assert!(matches!(app.status, Status::AdjustHelp));
    adjust_next_word(&mut app);
    assert_eq!(app.adjust_word_index, 1);
    confirm_adjustment(&mut app);
    assert_eq!(transcripts(&app), vec!["A B C D", "E"]);
    assert!(app.store.clips[0].is_manually_adjusted);
    assert!(app.store.clips[1].is_manually_adjusted);
    assert_eq!(app.adjustments.samples(), vec![2]);
    assert_eq!(app.mode, Mode::Normal);
    assert!(matches!(app.status, Status::AdjustmentLearned { more_needed: 2 }));
    assert_eq!(app.history.undo_stack.len(), 1);
    assert_eq!(app.history.undo_stack[0][0].transcript, "A B");
    assert_eq!(app.history.undo_stack[0][1].transcript, "C D E");
}

#[test]
fn manual_correction_normalises_the_remaining_words() {
    let mut app = session(&["one", "  two\tthree \n four  "]);
    enter_adjust_mode(&mut app);
    confirm_adjustment(&mut app);
    assert_eq!(transcripts(&app), vec!["one two", "three four"]);
    assert_eq!(app.adjustments.samples(), vec![1]);
}

#[test]
fn manual_correction_of_all_words_leaves_empty_next_clip() {
    let mut app = session(&["A", "B C"]);
    enter_adjust_mode(&mut app);
    adjust_next_word(&mut app);
    adjust_next_word(&mut app);
    assert_eq!(app.adjust_word_index, 1);
    confirm_adjustment(&mut app);
    assert_eq!(transcripts(&app), vec!["A B C", ""]);
    assert_eq!(app.store.clips.len(), 2);
}

#[test]
fn word_cursor_is_clamped_at_both_ends() {
    let mut app = session(&["A", "B C D"]);
    enter_adjust_mode(&mut app);
    adjust_previous_word(&mut app);
    assert_eq!(app.adjust_word_index, 0);
    adjust_next_word(&mut app);
    adjust_next_word(&mut app);
    adjust_next_word(&mut app);
    adjust_next_word(&mut app);
    assert_eq!(app.adjust_word_index, 2);
    adjust_previous_word(&mut app);
    assert_eq!(app.adjust_word_index, 1);
}

#[test]
fn adjust_mode_is_rejected_on_the_last_clip() {
    let mut app = session(&["A", "B"]);
    app.store.current_index = 1;
    enter_adjust_mode(&mut app);
    assert_eq!(app.mode, Mode::Normal);
    assert!(matches!(app.status, Status::CannotAdjustLastClip));
    let mut empty = session(&[]);
    enter_adjust_mode(&mut empty);
    assert_eq!(empty.mode, Mode::Normal);
    assert!(matches!(empty.status, Status::CannotAdjustLastClip));
}

#[test]
fn confirm_without_next_clip_only_returns_to_normal() {
    let mut app = session(&["A"]);
    app.mode = Mode::Adjust;
    confirm_adjustment(&mut app);
    assert_eq!(app.mode, Mode::Normal);
    assert_eq!(transcripts(&app), vec!["A"]);
    assert!(app.history.undo_stack.is_empty());
    assert_eq!(app.adjustments.len(), 0);
}

#[test]
fn confirm_on_a_next_clip_without_words_checkpoints_and_moves_nothing() {
    let mut app = session(&["A", "   "]);
    enter_adjust_mode(&mut app);
    confirm_adjustment(&mut app);
    assert_eq!(transcripts(&app), vec!["A", "   "]);
    assert!(!app.store.clips[0].is_manually_adjusted);
    assert_eq!(app.history.undo_stack.len(), 1);
    assert_eq!(app.adjustments.len(), 0);
}

#[test]
fn third_sample_learns_the_pattern() {
    let mut app = session(&["A", "B C", "D E", "F G"]);
    for i in 0..3 {
        app.store.current_index = i;
        enter_adjust_mode(&mut app);
        confirm_adjustment(&mut app);
    }
    assert_eq!(app.adjustments.samples(), vec![1, 1, 1]);
    assert!(matches!(app.status, Status::PatternLearned));
}

#[test]
fn autofix_moves_the_rounded_mean() {
    let mut app = session(&["K L", "X Y Z W"]);
    teach(&mut app, &[2, 2, 3]);
    autofix_transcripts(&mut app);
    assert_eq!(transcripts(&app), vec!["K L X Y", "Z W"]);
    assert!(matches!(app.status, Status::AutofixComplete { words_moved: 2 }));
    assert!(!app.store.clips[0].is_manually_adjusted);
    assert!(!app.store.clips[1].is_manually_adjusted);
    assert_eq!(app.adjustments.samples(), vec![2, 2, 3]);
    assert_eq!(app.history.undo_stack.len(), 1);
}

#[test]
fn autofix_with_inconsistent_samples_changes_nothing() {
    let mut app = session(&["K L", "X Y Z W"]);
    teach(&mut app, &[1, 5]);
    autofix_transcripts(&mut app);
    assert_eq!(transcripts(&app), vec!["K L", "X Y Z W"]);
    assert!(app.history.undo_stack.is_empty());
    assert!(matches!(app.status, Status::Refused(Error::LowCorrectionConfidence(200))));
}

#[test]
fn autofix_without_samples_reports_insufficient_data() {
    let mut app = session(&["K L", "X Y Z W"]);
    autofix_transcripts(&mut app);
    assert_eq!(transcripts(&app), vec!["K L", "X Y Z W"]);
    assert!(app.history.undo_stack.is_empty());
    assert!(matches!(app.status, Status::Refused(Error::InsufficientAdjustmentSamples)));
}

#[test]
fn autofix_skips_manually_adjusted_pairs() {
    let mut app = session(&["A", "B C D", "E F G", "H I J"]);
    app.store.clips[1].is_manually_adjusted = true;
    teach(&mut app, &[1]);
    autofix_transcripts(&mut app);
    assert_eq!(transcripts(&app), vec!["A", "B C D", "E F G H", "I J"]);
    assert!(matches!(app.status, Status::AutofixComplete { words_moved: 1 }));
}

#[test]
fn autofix_works_from_the_end_and_sees_earlier_moves() {
    let mut app = session(&["A", "B", "C D", "E F G"]);
    teach(&mut app, &[2]);
    autofix_transcripts(&mut app);
    // pair (2,3): "E F G" has 3 > 2 words; pair (1,2): "C D E F" has 4 > 2
    // words; pair (0,1): "B C D" has 3 > 2 words.
    assert_eq!(transcripts(&app), vec!["A B C", "D", "E F", "G"]);
    assert!(matches!(app.status, Status::AutofixComplete { words_moved: 6 }));
}

#[test]
fn autofix_needs_more_words_than_it_moves() {
    let mut app = session(&["A", "B C"]);
    teach(&mut app, &[2]);
    autofix_transcripts(&mut app);
    assert_eq!(transcripts(&app), vec!["A", "B C"]);
    assert!(matches!(app.status, Status::AutofixComplete { words_moved: 0 }));
    assert_eq!(app.history.undo_stack.len(), 1);
}

#[test]
fn autofix_prunes_blank_clips_and_clamps_the_cursor() {
    let mut app = session(&["A", "  ", "B C", ""]);
    app.store.current_index = 3;
    teach(&mut app, &[1]);
    autofix_transcripts(&mut app);
    // pair (1,2) moves "B" behind the two spaces and one more; the empty
    // last clip is removed.
    assert_eq!(transcripts(&app), vec!["A", "   B", "C"]);
    assert_eq!(app.store.current_index, 2);
}

fn all_words(app: &App) -> Vec<String> {
    app.store
        .clips
        .iter()
        .flat_map(|c| c.transcript.split_whitespace().map(|w| w.to_string()).collect::<Vec<_>>())
        .collect()
}

#[test]
fn corrections_keep_every_word_in_order() {
    let mut app = session(&["a  b", " c d\te ", "", "f g h i", "   ", "j"]);
    let before = all_words(&app);
    app.store.current_index = 0;
    enter_adjust_mode(&mut app);
    adjust_next_word(&mut app);
    confirm_adjustment(&mut app);
    assert_eq!(all_words(&app), before);
    assert_eq!(transcripts(&app)[0], "a  b c d");
    autofix_transcripts(&mut app);
    assert_eq!(all_words(&app), before);
    assert!(app.store.clips.iter().all(|c| !c.transcript.trim().is_empty()));
    assert!(app.store.current_index < app.store.clips.len());
}
