//! The transcription service's request and response, as plain values: the
//! request that carries one audio window, and the transcript text that a
//! response holds.

use vstd::prelude::*;
use crate::text::{
    chars_of, drop_pattern, drop_spaces, skip_pattern, skip_spaces, string_of, strip_leading,
    strip_trailing, trim,
};

verus! {

pub struct GeminiRequest {
    pub contents: Vec<Content>,
}

pub struct Content {
    pub parts: Vec<Part>,
}

pub enum Part {
    Text { text: String },
    InlineData { inline_data: InlineData },
}

pub struct InlineData {
    pub mime_type: String,
    pub data: String,
}

#[derive(Debug)]
pub struct GeminiResponse {
    pub candidates: Vec<Candidate>,
}

#[derive(Debug)]
pub struct Candidate {
    pub content: Option<ResponseContent>,
}

#[derive(Debug)]
pub struct ResponseContent {
    pub parts: Vec<ResponsePart>,
}

#[derive(Debug)]
pub struct ResponsePart {
    pub text: String,
}

/// The character of the six-bit value `v` in the standard base64
/// alphabet: the upper-case letters, the lower-case letters, the digits,
/// `+` and `/`.
pub open spec fn base64_char(v: int) -> char {
    if v < 26 {
        (65 + v) as u8 as char
    } else if v < 52 {
        (71 + v) as u8 as char
    } else if v < 62 {
        (v - 4) as u8 as char
    } else if v == 62 {
        '+'
    } else {
        '/'
    }
}

/// The base64 encoding of `data` in the standard alphabet with padding:
/// four characters for every three bytes, six bits each, and a last group
/// of one or two bytes filled up with `=`.
pub open spec fn base64_standard(data: Seq<u8>) -> Seq<char>
    decreases data.len(),
{
    if data.len() == 0 {
        Seq::empty()
    } else if data.len() == 1 {
        let a = data[0] as int;
        seq![base64_char(a / 4), base64_char(a % 4 * 16), '=', '=']
    } else if data.len() == 2 {
        let a = data[0] as int;
        let b = data[1] as int;
        seq![base64_char(a / 4), base64_char(a % 4 * 16 + b / 16), base64_char(b % 16 * 4), '=']
    } else {
        let a = data[0] as int;
        let b = data[1] as int;
        let c = data[2] as int;
        seq![
            base64_char(a / 4),
            base64_char(a % 4 * 16 + b / 16),
            base64_char(b % 16 * 4 + c / 64),
            base64_char(c % 64),
        ] + base64_standard(data.skip(3))
    }
}

/// Encodes `data` by `base64::engine::general_purpose::STANDARD.encode`,
/// the encoder of the standard alphabet with padding. Taken on trust: the
/// result is `base64_standard` of the input. The encoder fails where the
/// encoded length does not fit `usize`; such input is excluded.
#[verifier::external_body]
fn encode_base64(data: &[u8]) -> (s: String)
    requires
        data@.len() / 3 * 4 + 4 <= usize::MAX,
    ensures
        s@ == base64_standard(data@),
{
    base64::Engine::encode(&base64::engine::general_purpose::STANDARD, data)
}

/// The instruction that accompanies the audio.
pub open spec fn prompt_text() -> Seq<char> {
    "Transcribe this audio. Identify speakers. Segment the audio into clips based on pauses or speaker changes. Provide the output as a valid JSON array of objects, where each object has 'id', 'speaker', 'transcript', 'start_time', and 'end_time'. The JSON should be the only thing in your response."@
}

/// The media type under which the audio is sent.
pub open spec fn audio_mime_type() -> Seq<char> {
    "audio/wav"@
}

/// Whether `request` asks for the transcript of `audio`: one content of
/// two parts, the instruction and the audio in base64.
pub open spec fn is_request_for(request: GeminiRequest, audio: Seq<u8>) -> bool {
    &&& request.contents@.len() == 1
    &&& request.contents@[0].parts@.len() == 2
    &&& request.contents@[0].parts@[0] matches Part::Text { text } && text@ == prompt_text()
    &&& request.contents@[0].parts@[1] matches Part::InlineData { inline_data }
        && inline_data.mime_type@ == audio_mime_type() && inline_data.data@ == base64_standard(
        audio,
    )
}

/// The request for the transcript of one audio window.
pub fn build_request(audio: &[u8]) -> (request: GeminiRequest)
    requires
        audio@.len() / 3 * 4 + 4 <= usize::MAX,
    ensures
        is_request_for(request, audio@),
{
    let prompt =
        "Transcribe this audio. Identify speakers. Segment the audio into clips based on pauses or speaker changes. Provide the output as a valid JSON array of objects, where each object has 'id', 'speaker', 'transcript', 'start_time', and 'end_time'. The JSON should be the only thing in your response.".to_string();
    let inline_data = InlineData { mime_type: "audio/wav".to_string(), data: encode_base64(audio) };
    let mut parts: Vec<Part> = Vec::new();
    parts.push(Part::Text { text: prompt });
    parts.push(Part::InlineData { inline_data });
    let mut contents: Vec<Content> = Vec::new();
    contents.push(Content { parts });
    GeminiRequest { contents }
}

/// The address of the service for the key `api_key`.
pub open spec fn endpoint(api_key: Seq<char>) -> Seq<char> {
    "https://generativelanguage.googleapis.com/v1beta/models/gemini-1.5-flash-latest:generateContent?key="@
        + api_key
}

/// The address to post a request to.
pub fn request_url(api_key: &str) -> (url: String)
    ensures
        url@ == endpoint(api_key@),
{
    let mut url =
        "https://generativelanguage.googleapis.com/v1beta/models/gemini-1.5-flash-latest:generateContent?key=".to_string();
    url.append(api_key);
    url
}

/// The text of the first part of the first candidate of `response`, or
/// the empty text where the response has none.
pub open spec fn first_text(response: GeminiResponse) -> Seq<char> {
    if response.candidates@.len() > 0 {
        match response.candidates@[0].content {
            Some(content) => if content.parts@.len() > 0 {
                content.parts@[0].text@
            } else {
                Seq::empty()
            },
            None => Seq::empty(),
        }
    } else {
        Seq::empty()
    }
}

/// `raw` without the code fence that the service may put around its
/// answer: trimmed, every leading fence opener and every trailing fence
/// removed, and trimmed again.
pub open spec fn unfenced(raw: Seq<char>) -> Seq<char> {
    trim(strip_trailing(strip_leading(trim(raw), "```json"@), "```"@))
}

/// Removes the code fence around `raw`.
pub fn strip_fence(raw: &str) -> (body: String)
    ensures
        body@ == unfenced(raw@),
{
    let v = chars_of(raw);
    let opener = chars_of("```json");
    let fence = chars_of("```");
    assert(v@.subrange(0, v@.len() as int) == v@);
    let lo = skip_spaces(&v, 0, v.len());
    let hi = drop_spaces(&v, lo, v.len());
    let lo = skip_pattern(&v, lo, hi, &opener);
    let hi = drop_pattern(&v, lo, hi, &fence);
    let lo = skip_spaces(&v, lo, hi);
    let hi = drop_spaces(&v, lo, hi);
    string_of(&v, lo, hi)
}

/// The transcript text that `response` holds, without its code fence;
/// empty where the response holds no text.
pub fn response_text(response: &GeminiResponse) -> (body: String)
    ensures
        body@ == unfenced(first_text(*response)),
{
    if response.candidates.len() > 0 {
        match &response.candidates[0].content {
            Some(content) => {
                if content.parts.len() > 0 {
                    return strip_fence(content.parts[0].text.as_str());
                }
            },
            None => {},
        }
    }
    let nothing = String::new();
    strip_fence(nothing.as_str())
}

} // verus!
