use avim::cache::{cache_file_name, entry_file_name};
use avim::command::{parse_command, Command};
use avim::error::Error;
use avim::gcp::{
    build_request, request_url, response_text, strip_fence, Candidate, GeminiResponse, Part,
    ResponseContent, ResponsePart,
};
use avim::text::{
    char_is_space, chars_of, is_blank_text, join_words, same_text, split_words, string_of,
    word_count,
};

fn strings(words: &[&str]) -> Vec<String> {
    words.iter().map(|w| w.to_string()).collect()
}

#[test]
fn white_space_is_the_unicode_property() {
    for c in [' ', '\t', '\n', '\r', '\u{0B}', '\u{0C}', '\u{85}', '\u{A0}', '\u{1680}',
        '\u{2000}', '\u{200A}', '\u{2028}', '\u{2029}', '\u{202F}', '\u{205F}', '\u{3000}']
    {
        assert!(char_is_space(c));
    }
    for c in ['a', '0', '\u{200B}', '\u{180E}', '\u{FEFF}', '\u{8}', '\u{E}', '\u{1F}'] {
        assert!(!char_is_space(c));
    }
}

#[test]
fn white_space_agrees_with_std_on_every_char() {
    let mut code: u32 = 0;
    while code <= 0x10FFFF {
        if let Some(c) = char::from_u32(code) {
            assert_eq!(char_is_space(c), c.is_whitespace());
        }
        code += 1;
    }
}

#[test]
fn split_words_agrees_with_split_whitespace() {
    for s in ["", "   ", "one", " one", "one ", "a b", "a  b\t\nc", "\u{3000}x\u{A0}y ", "é ü  ß"] {
        let expected: Vec<String> = s.split_whitespace().map(|w| w.to_string()).collect();
        assert_eq!(split_words(s), expected);
        assert_eq!(word_count(s), expected.len());
        assert_eq!(is_blank_text(s), s.trim().is_empty());
    }
}

#[test]
fn join_words_puts_single_spaces() {
    let ws = strings(&["a", "bc", "d"]);
    assert_eq!(join_words(&ws, 0, 3), "a bc d");
    assert_eq!(join_words(&ws, 1, 3), "bc d");
    assert_eq!(join_words(&ws, 1, 2), "bc");
    assert_eq!(join_words(&ws, 2, 2), "");
}

#[test]
fn chars_and_strings_convert_both_ways() {
    let v = chars_of("héllo");
    assert_eq!(v, vec!['h', 'é', 'l', 'l', 'o']);
    assert_eq!(string_of(&v, 1, 4), "éll");
    assert_eq!(string_of(&v, 0, 0), "");
}

#[test]
fn same_text_compares_characters() {
    assert!(same_text("abc", "abc"));
    assert!(same_text("", ""));
    assert!(!same_text("abc", "abd"));
    assert!(!same_text("abc", "ab"));
    assert!(!same_text("ab", "abc"));
}

#[test]
fn command_lines_parse_by_their_first_token() {
    assert!(matches!(parse_command(""), Ok(Command::Empty)));
    assert!(matches!(parse_command("   "), Ok(Command::Empty)));
    assert!(matches!(parse_command("w"), Ok(Command::Write(None))));
    assert!(matches!(parse_command(" w  out.avim  x"), Ok(Command::Write(Some(p))) if p == "out.avim"));
    assert!(matches!(parse_command("export"), Ok(Command::Export(None))));
    assert!(matches!(parse_command("export a.wav"), Ok(Command::Export(Some(f))) if f == "a.wav"));
    assert!(matches!(parse_command("q"), Ok(Command::Quit)));
    assert!(matches!(parse_command("q!"), Ok(Command::Quit)));
    assert!(matches!(parse_command("help"), Ok(Command::Help)));
    assert!(matches!(parse_command("lasterror"), Ok(Command::LastError)));
    assert!(matches!(parse_command("autofix"), Ok(Command::Autofix)));
    assert!(matches!(parse_command("wq"), Err(Error::UnknownCommand)));
    assert!(matches!(parse_command("Q"), Err(Error::UnknownCommand)));
}

#[test]
fn fence_is_stripped_as_by_the_string_methods() {
    for raw in [
        "",
        "[]",
        "```json\n[{\"id\": 1}]\n```",
        "  ```json```json [1] ``````  ",
        "```json",
        "```",
        "``` json [1] ```",
        "[1] ```json",
        " \n[1]\t",
        "```json [1] `` `",
    ] {
        let expected =
            raw.trim().trim_start_matches("```json").trim_end_matches("```").trim().to_string();
        assert_eq!(strip_fence(raw), expected);
    }
    assert_eq!(strip_fence("```json\n[1, 2]\n```"), "[1, 2]");
}

fn response(parts: Option<Vec<&str>>) -> GeminiResponse {
    GeminiResponse {
        candidates: vec![Candidate {
            content: parts.map(|p| ResponseContent {
                parts: p.into_iter().map(|t| ResponsePart { text: t.to_string() }).collect(),
            }),
        }],
    }
}

#[test]
fn response_text_takes_the_first_part_of_the_first_candidate() {
    assert_eq!(response_text(&response(Some(vec!["```json\n[]\n```", "other"]))), "[]");
    assert_eq!(response_text(&response(Some(vec![]))), "");
    assert_eq!(response_text(&response(None)), "");
    assert_eq!(response_text(&GeminiResponse { candidates: vec![] }), "");
}

#[test]
fn request_carries_prompt_and_encoded_audio() {
    let request = build_request(b"hello world~");
    assert_eq!(request.contents.len(), 1);
    let parts = &request.contents[0].parts;
    assert_eq!(parts.len(), 2);
    match &parts[0] {
        Part::Text { text } => {
            assert!(text.starts_with("Transcribe this audio. Identify speakers."));
            assert!(text.ends_with("The JSON should be the only thing in your response."));
        }
        Part::InlineData { .. } => panic!("the first part is the prompt"),
    }
    match &parts[1] {
        Part::InlineData { inline_data } => {
            assert_eq!(inline_data.mime_type, "audio/wav");
            assert_eq!(inline_data.data, "aGVsbG8gd29ybGR+");
        }
        Part::Text { .. } => panic!("the second part is the audio"),
    }
}

#[test]
fn base64_pads_short_groups() {
    let encoded = |bytes: &[u8]| match &build_request(bytes).contents[0].parts[1] {
        Part::InlineData { inline_data } => inline_data.data.clone(),
        Part::Text { .. } => panic!("the second part is the audio"),
    };
    assert_eq!(encoded(b""), "");
    assert_eq!(encoded(b"f"), "Zg==");
    assert_eq!(encoded(b"fo"), "Zm8=");
    assert_eq!(encoded(b"foo"), "Zm9v");
    assert_eq!(encoded(&[0xfb, 0xff]), "+/8=");
}

#[test]
fn request_url_ends_with_the_key() {
    assert_eq!(
        request_url("K1"),
        "https://generativelanguage.googleapis.com/v1beta/models/gemini-1.5-flash-latest:generateContent?key=K1"
    );
}

#[test]
fn cache_name_is_the_hex_digest_of_the_path() {
    assert_eq!(
        cache_file_name("abc"),
        "ba7816bf8f01cfea414140de5dae2223b00361a396177a9cb410ff61f20015ad.json"
    );
    assert_eq!(
        cache_file_name(""),
        "e3b0c44298fc1c149afbf4c8996fb92427ae41e4649b934ca495991b7852b855.json"
    );
    assert_eq!(cache_file_name("/audio/a.wav"), cache_file_name("/audio/a.wav"));
    assert_ne!(cache_file_name("/audio/a.wav"), cache_file_name("/audio/b.wav"));
}

#[test]
fn joined_words_split_into_the_same_words() {
    for s in ["", "x", "  a\tb  c\n", "one two three"] {
        let ws = split_words(s);
        let joined = join_words(&ws, 0, ws.len());
        assert_eq!(split_words(&joined), ws);
        assert!(ws.iter().all(|w| !w.is_empty() && !w.chars().any(char_is_space)));
        assert_eq!(ws.is_empty(), is_blank_text(s));
    }
}

#[test]
fn entry_name_is_lower_case_hex_with_extension() {
    assert_eq!(entry_file_name(&[]), ".json");
    assert_eq!(entry_file_name(&[0x00, 0x0f, 0xa0, 0xff, 0x1b]), "000fa0ff1b.json");
}
