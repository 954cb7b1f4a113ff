//! The text of the screen: the rows that show a clip, the mode line and
//! the panel title, as plain strings for a renderer to style and draw.

use vstd::prelude::*;
use crate::app::{App, Mode};
use crate::clip::{Clip, ClipView};
use crate::text::{push_char, split_words, texts, words};

verus! {

/// The character of the decimal digit `d`, for `d` below 10.
pub open spec fn digit_char(d: int) -> char {
    seq!['0', '1', '2', '3', '4', '5', '6', '7', '8', '9'][d]
}

/// The decimal numeral of `n`, without leading zeros.
pub open spec fn decimal(n: nat) -> Seq<char>
    decreases n,
{
    if n < 10 {
        seq![digit_char(n as int)]
    } else {
        decimal(n / 10).push(digit_char((n % 10) as int))
    }
}

/// `s` with as many `fill` in front as it takes to reach `width`
/// characters; a longer `s` stays as it is.
pub open spec fn pad_start(s: Seq<char>, width: nat, fill: char) -> Seq<char> {
    if s.len() >= width {
        s
    } else {
        Seq::new((width - s.len()) as nat, |i: int| fill) + s
    }
}

/// The character of one decimal digit.
fn digit(d: u64) -> (c: char)
    requires
        d < 10,
    ensures
        c == digit_char(d as int),
{
    if d == 0 {
        '0'
    } else if d == 1 {
        '1'
    } else if d == 2 {
        '2'
    } else if d == 3 {
        '3'
    } else if d == 4 {
        '4'
    } else if d == 5 {
        '5'
    } else if d == 6 {
        '6'
    } else if d == 7 {
        '7'
    } else if d == 8 {
        '8'
    } else {
        '9'
    }
}

/// Appends the decimal numeral of `n` to `s`.
pub fn push_decimal(s: &mut String, n: u64)
    ensures
        final(s)@ == old(s)@ + decimal(n as nat),
    decreases n,
{
    if n >= 10 {
        push_decimal(s, n / 10);
    }
    push_char(s, digit(n % 10));
    assert(s@ =~= old(s)@ + decimal(n as nat));
}

/// Appends `text` to `s`, padded in front with `fill` to `width`
/// characters.
pub fn push_padded(s: &mut String, text: &str, width: usize, fill: char)
    ensures
        final(s)@ == old(s)@ + pad_start(text@, width as nat, fill),
{
    let len = text.unicode_len();
    if len < width {
        let mut i: usize = 0;
        while i < width - len
            invariant
                len < width,
                i <= width - len,
                s@ == old(s)@ + Seq::new(i as nat, |j: int| fill),
            decreases width - len - i,
        {
            push_char(s, fill);
            i += 1;
            assert(s@ =~= old(s)@ + Seq::new(i as nat, |j: int| fill));
        }
    }
    s.append(text);
    assert(s@ =~= old(s)@ + pad_start(text@, width as nat, fill));
}

/// A time of `ms` milliseconds in hundredths of a second, rounded to the
/// nearest, halves upwards.
pub open spec fn hundredths(ms: nat) -> nat {
    (ms + 5) / 10
}

/// A time as the screen shows it: seconds with two decimals, padded in
/// front with zeros to five characters.
pub open spec fn timestamp(ms: nat) -> Seq<char> {
    let h = hundredths(ms);
    pad_start(
        decimal(h / 100) + seq!['.', digit_char((h / 10 % 10) as int), digit_char((h % 10) as int)],
        5,
        '0',
    )
}

/// Appends the time `ms` as the screen shows it.
pub fn push_timestamp(s: &mut String, ms: u64)
    ensures
        final(s)@ == old(s)@ + timestamp(ms as nat),
{
    let h: u64 = ms / 10 + if ms % 10 >= 5 {
        1
    } else {
        0
    };
    assert(h == hundredths(ms as nat));
    let mut number = String::new();
    push_decimal(&mut number, h / 100);
    push_char(&mut number, '.');
    push_char(&mut number, digit(h / 10 % 10));
    push_char(&mut number, digit(h % 10));
    assert(number@ =~= decimal((h / 100) as nat) + seq![
        '.',
        digit_char((h / 10 % 10) as int),
        digit_char((h % 10) as int),
    ]);
    push_padded(s, number.as_str(), 5, '0');
}

/// The words `ws`, each followed by one space.
pub open spec fn spaced(ws: Seq<Seq<char>>) -> Seq<char>
    decreases ws.len(),
{
    if ws.len() == 0 {
        Seq::empty()
    } else {
        spaced(ws.drop_last()) + ws.last() + seq![' ']
    }
}

/// What a clip's rows say before wrapping: the two times in square
/// brackets, the speaker in square brackets, and the transcript, or, for
/// the clip whose words adjust mode selects, each word followed by one
/// space.
pub open spec fn clip_text(c: ClipView, by_words: bool) -> Seq<char> {
    seq!['['] + timestamp(c.start_time as nat) + seq!['-'] + timestamp(c.end_time as nat) + seq![
        ']',
        ' ',
        '[',
    ] + c.speaker + seq![']', ' '] + if by_words {
        spaced(words(c.transcript))
    } else {
        c.transcript
    }
}

/// Builds `clip_text`.
pub fn clip_line(clip: &Clip, by_words: bool) -> (s: String)
    ensures
        s@ == clip_text(clip@, by_words),
{
    let mut s = String::new();
    push_char(&mut s, '[');
    push_timestamp(&mut s, clip.start_time);
    push_char(&mut s, '-');
    push_timestamp(&mut s, clip.end_time);
    push_char(&mut s, ']');
    push_char(&mut s, ' ');
    push_char(&mut s, '[');
    s.append(clip.speaker.as_str());
    push_char(&mut s, ']');
    push_char(&mut s, ' ');
    let ghost head = s@;
    assert(head =~= seq!['['] + timestamp(clip.start_time as nat) + seq!['-'] + timestamp(
        clip.end_time as nat,
    ) + seq![']', ' ', '['] + clip.speaker@ + seq![']', ' ']);
    if by_words {
        let ws = split_words(clip.transcript.as_str());
        let mut i: usize = 0;
        assert(texts(ws@).take(0) =~= Seq::<Seq<char>>::empty());
        while i < ws.len()
            invariant
                i <= ws.len(),
                texts(ws@) == words(clip.transcript@),
                s@ == head + spaced(texts(ws@).take(i as int)),
            decreases ws.len() - i,
        {
            assert(texts(ws@).take(i + 1).drop_last() == texts(ws@).take(i as int));
            assert(texts(ws@).take(i + 1).last() == ws@[i as int]@);
            s.append(ws[i].as_str());
            push_char(&mut s, ' ');
            i += 1;
            assert(s@ =~= head + spaced(texts(ws@).take(i as int)));
        }
        assert(texts(ws@).take(ws@.len() as int) == texts(ws@));
    } else {
        s.append(clip.transcript.as_str());
    }
    s
}

/// The lines into which `text` is wrapped at `width` columns.
pub uninterp spec fn wrapped(text: Seq<char>, width: int) -> Seq<Seq<char>>;

/// Wraps `text` by `textwrap::wrap` with its default options for the
/// width `width`, and hands each line out as an owned string. Taken on
/// trust: the lines are a function of text and width alone, here called
/// `wrapped`.
#[verifier::external_body]
fn wrap_text(text: &str, width: u16) -> (lines: Vec<String>)
    ensures
        texts(lines@) == wrapped(text@, width as int),
{
    textwrap::wrap(text, width as usize).into_iter().map(|line| line.into_owned()).collect()
}

/// What stands in front of the first row of clip number `number`: the
/// number, padded in front with spaces to four characters, and a space.
pub open spec fn number_prefix(number: nat) -> Seq<char> {
    pad_start(decimal(number), 4, ' ').push(' ')
}

/// What stands in front of every further row.
pub open spec fn blank_prefix() -> Seq<char> {
    seq![' ', ' ', ' ', ' ', ' ']
}

/// The rows that the wrapped lines `lines` make, without the comment: the
/// first with the number in front, the others indented below it.
pub open spec fn text_rows(number: nat, lines: Seq<Seq<char>>) -> Seq<Seq<char>> {
    Seq::new(
        lines.len(),
        |i: int|
            if i == 0 {
                number_prefix(number) + lines[i]
            } else {
                blank_prefix() + lines[i]
            },
    )
}

/// The rows of clip number `number`: its text rows, and below them the
/// comment, where there is one, behind two slashes.
pub open spec fn rows_of(number: nat, lines: Seq<Seq<char>>, comment: Seq<char>) -> Seq<
    Seq<char>,
> {
    if comment.len() == 0 {
        text_rows(number, lines)
    } else {
        text_rows(number, lines).push(blank_prefix() + seq!['/', '/', ' '] + comment)
    }
}

/// Arranges wrapped lines and a comment into the rows of clip number
/// `number`.
pub fn arrange_rows(number: u64, lines: &Vec<String>, comment: &str) -> (rows: Vec<String>)
    ensures
        texts(rows@) == rows_of(number as nat, texts(lines@), comment@),
{
    let mut rows: Vec<String> = Vec::new();
    let mut i: usize = 0;
    while i < lines.len()
        invariant
            i <= lines.len(),
            rows@.len() == i,
            forall|j: int|
                0 <= j < i ==> (#[trigger] rows@[j])@ == text_rows(number as nat, texts(lines@))[j],
        decreases lines.len() - i,
    {
        let mut row = String::new();
        if i == 0 {
            let mut numeral = String::new();
            push_decimal(&mut numeral, number);
            push_padded(&mut row, numeral.as_str(), 4, ' ');
            push_char(&mut row, ' ');
            assert(row@ =~= number_prefix(number as nat));
        } else {
            row.append("     ");
            proof {
                reveal_strlit("     ");
            }
            assert(row@ =~= blank_prefix());
        }
        row.append(lines[i].as_str());
        rows.push(row);
        i += 1;
    }
    assert(texts(rows@) =~= text_rows(number as nat, texts(lines@)));
    if comment.unicode_len() > 0 {
        let mut row = String::new();
        row.append("     // ");
        proof {
            reveal_strlit("     // ");
        }
        assert(row@ =~= blank_prefix() + seq!['/', '/', ' ']);
        row.append(comment);
        let ghost before = texts(rows@);
        rows.push(row);
        assert(texts(rows@) =~= before.push(blank_prefix() + seq!['/', '/', ' '] + comment@));
    }
    rows
}

/// How a clip's rows stand out on the screen.
#[derive(PartialEq, Eq, Clone, Copy, Debug, Structural)]
pub enum Emphasis {
    /// The clip under the cursor.
    Current,
    /// The clip whose words adjust mode selects.
    AdjustTarget,
    /// Any other clip.
    Plain,
}

/// Whether clip `index` is the one whose words adjust mode selects: the
/// clip behind the cursor, in adjust mode.
pub open spec fn is_adjust_target(app: App, index: int) -> bool {
    app.mode == Mode::Adjust && index == app.store.current_index + 1
}

/// How clip `index` stands out.
pub open spec fn emphasis_of(app: App, index: int) -> Emphasis {
    if index == app.store.current_index {
        Emphasis::Current
    } else if is_adjust_target(app, index) {
        Emphasis::AdjustTarget
    } else {
        Emphasis::Plain
    }
}

/// Decides `is_adjust_target`.
fn adjust_target(app: &App, index: usize) -> (r: bool)
    ensures
        r == is_adjust_target(*app, index as int),
{
    app.mode == Mode::Adjust && index > 0 && index - 1 == app.store.current_index
}

/// How clip `index` stands out on the screen.
pub fn clip_emphasis(app: &App, index: usize) -> (e: Emphasis)
    ensures
        e == emphasis_of(*app, index as int),
{
    if index == app.store.current_index {
        Emphasis::Current
    } else if adjust_target(app, index) {
        Emphasis::AdjustTarget
    } else {
        Emphasis::Plain
    }
}

/// The rows that show clip `index` in a panel that leaves `width` columns
/// to the text, with the clip counted from 1; no rows where there is no
/// such clip.
pub fn clip_rows(app: &App, index: usize, width: u16) -> (rows: Vec<String>)
    ensures
        index < app.store.doc().len() ==> texts(rows@) == rows_of(
            (index + 1) as nat,
            wrapped(
                clip_text(app.store.doc()[index as int], is_adjust_target(*app, index as int)),
                width as int,
            ),
            app.store.doc()[index as int].comment,
        ),
        index >= app.store.doc().len() ==> rows@.len() == 0,
{
    if index >= app.store.len() {
        return Vec::new();
    }
    let clip = &app.store.clips[index];
    let line = clip_line(clip, adjust_target(app, index));
    let lines = wrap_text(line.as_str(), width);
    let number: u64 = index as u64 + 1;
    arrange_rows(number, &lines, clip.comment.as_str())
}

/// What the mode line says: the name of the mode between dashes, or, in
/// command mode, the line buffer behind a colon.
pub open spec fn mode_text(mode: Mode, command_input: Seq<char>) -> Seq<char> {
    match mode {
        Mode::Normal => "-- NORMAL --"@,
        Mode::Command => seq![':'] + command_input,
        Mode::Insert => "-- INSERT --"@,
        Mode::Adjust => "-- ADJUST --"@,
        Mode::Visual => "-- VISUAL --"@,
    }
}

/// The text of the mode line.
pub fn mode_line(app: &App) -> (s: String)
    ensures
        s@ == mode_text(app.mode, app.command_input@),
{
    match app.mode {
        Mode::Normal => "-- NORMAL --".to_string(),
        Mode::Command => {
            let mut s = String::new();
            push_char(&mut s, ':');
            s.append(app.command_input.as_str());
            s
        },
        Mode::Insert => "-- INSERT --".to_string(),
        Mode::Adjust => "-- ADJUST --".to_string(),
        Mode::Visual => "-- VISUAL --".to_string(),
    }
}

/// What the transcript panel is titled for `count` clips.
pub open spec fn title_text(count: nat) -> Seq<char> {
    "Transcript ("@ + decimal(count) + " clips)"@
}

/// The title of the transcript panel.
pub fn panel_title(app: &App) -> (s: String)
    ensures
        s@ == title_text(app.store.doc().len()),
{
    let mut s = "Transcript (".to_string();
    push_decimal(&mut s, app.store.len() as u64);
    s.append(" clips)");
    s
}

} // verus!
