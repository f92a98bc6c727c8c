//! JSON text handling for the wire protocols.
//!
//! The outgoing direction is fully verified: request bodies are rendered
//! as JSON text by the functions here, with string escaping specified
//! character by character.
//!
//! The incoming direction reads a handful of fixed paths out of provider
//! response chunks. That parsing is done by serde_json behind thin trusted
//! wrappers; each wrapper's result is given a name (an uninterpreted spec
//! function of the chunk text), and the verified decoders state their
//! contracts exactly over those names.

use vstd::prelude::*;
use crate::text::push_char;

verus! {

/// The lower-case hexadecimal digit character for `d`.
pub open spec fn hex_char(d: nat) -> char {
    if d == 0 { '0' } else if d == 1 { '1' } else if d == 2 { '2' } else if d == 3 { '3' }
    else if d == 4 { '4' } else if d == 5 { '5' } else if d == 6 { '6' } else if d == 7 { '7' }
    else if d == 8 { '8' } else if d == 9 { '9' } else if d == 10 { 'a' } else if d == 11 { 'b' }
    else if d == 12 { 'c' } else if d == 13 { 'd' } else if d == 14 { 'e' } else { 'f' }
}

fn hex_char_exec(d: u32) -> (c: char)
    requires
        d < 16,
    ensures
        c == hex_char(d as nat),
{
    if d == 0 { '0' } else if d == 1 { '1' } else if d == 2 { '2' } else if d == 3 { '3' }
    else if d == 4 { '4' } else if d == 5 { '5' } else if d == 6 { '6' } else if d == 7 { '7' }
    else if d == 8 { '8' } else if d == 9 { '9' } else if d == 10 { 'a' } else if d == 11 { 'b' }
    else if d == 12 { 'c' } else if d == 13 { 'd' } else if d == 14 { 'e' } else { 'f' }
}

/// How one character is written inside a JSON string literal: quote and
/// backslash get a backslash escape, control characters a `\u00XX` escape,
/// and every other character stands for itself.
pub open spec fn esc_char(c: char) -> Seq<char> {
    if c == '"' {
        seq!['\\', '"']
    } else if c == '\\' {
        seq!['\\', '\\']
    } else if (c as u32) < 32 {
        seq!['\\', 'u', '0', '0', hex_char((c as u32 / 16) as nat), hex_char((c as u32 % 16) as nat)]
    } else {
        seq![c]
    }
}

/// The escaped form of the first `i` characters of `s`.
pub open spec fn esc_prefix(s: Seq<char>, i: int) -> Seq<char>
    decreases i,
{
    if i <= 0 {
        Seq::empty()
    } else {
        esc_prefix(s, i - 1) + esc_char(s[i - 1])
    }
}

/// The escaped form of `s`.
pub open spec fn esc_str(s: Seq<char>) -> Seq<char> {
    esc_prefix(s, s.len() as int)
}

/// The JSON string literal holding `s`: double quotes around the escaped
/// body.
pub open spec fn json_string(s: Seq<char>) -> Seq<char> {
    seq!['"'] + esc_str(s) + seq!['"']
}

/// Appends the JSON string literal holding `s`.
pub fn push_json_string(out: &mut String, s: &str)
    ensures
        final(out)@ == old(out)@ + json_string(s@),
{
    push_char(out, '"');
    let len = s.unicode_len();
    let mut i: usize = 0;
    while i < len
        invariant
            i <= len,
            len == s@.len(),
            out@ == old(out)@ + seq!['"'] + esc_prefix(s@, i as int),
        decreases len - i,
    {
        let c = s.get_char(i);
        let code = c as u32;
        if c == '"' {
            push_char(out, '\\');
            push_char(out, '"');
        } else if c == '\\' {
            push_char(out, '\\');
            push_char(out, '\\');
        } else if code < 32 {
            push_char(out, '\\');
            push_char(out, 'u');
            push_char(out, '0');
            push_char(out, '0');
            push_char(out, hex_char_exec(code / 16));
            push_char(out, hex_char_exec(code % 16));
        } else {
            push_char(out, c);
        }
        assert(out@ =~= old(out)@ + seq!['"'] + esc_prefix(s@, i as int) + esc_char(s@[i as int]));
        i += 1;
    }
    push_char(out, '"');
    assert(out@ =~= old(out)@ + json_string(s@));
}

// ------------------------------------------------------------------
// Trusted readers over provider response chunks.
// ------------------------------------------------------------------

/// Whether serde_json parses the text as a JSON document.
pub uninterp spec fn json_wf(s: Seq<char>) -> bool;

/// Relies on `serde_json::from_str::<serde_json::Value>`: whether the text
/// parses as JSON. The result depends on the characters alone.
#[verifier::external_body]
pub fn json_well_formed(data: &str) -> (r: bool)
    ensures
        r == json_wf(data@),
{
    serde_json::from_str::<serde_json::Value>(data).is_ok()
}

/// Whether the parsed chunk carries a non-null `choices[0].finish_reason`;
/// nothing when the chunk is not JSON.
pub uninterp spec fn openai_finish_of(s: Seq<char>) -> Option<bool>;

/// Relies on `serde_json::from_str` and `Value`'s indexing and `is_null`:
/// indexing a missing path yields JSON null, so the result tells whether
/// `choices[0].finish_reason` is present and non-null. `None` exactly when
/// the text does not parse as JSON.
#[verifier::external_body]
pub fn openai_finish(data: &str) -> (r: Option<bool>)
    ensures
        r == openai_finish_of(data@),
        r is Some <==> json_wf(data@),
{
    serde_json::from_str::<serde_json::Value>(data)
        .ok()
        .map(|v| !v["choices"][0]["finish_reason"].is_null())
}

/// The string at `choices[0].delta.content` of the parsed chunk, if the
/// chunk parses and that path holds a string.
pub uninterp spec fn openai_content_of(s: Seq<char>) -> Option<Seq<char>>;

/// Relies on `serde_json::from_str` and `Value`'s indexing and `as_str`.
#[verifier::external_body]
pub fn openai_content(data: &str) -> (r: Option<String>)
    ensures
        r.deep_view() == openai_content_of(data@),
{
    serde_json::from_str::<serde_json::Value>(data)
        .ok()
        .and_then(|v| v["choices"][0]["delta"]["content"].as_str().map(String::from))
}

/// The string at `choices[0].message.content` of a parsed non-streaming
/// response body, if the body parses and that path holds a string.
pub uninterp spec fn openai_message_content_of(s: Seq<char>) -> Option<Seq<char>>;

/// Relies on `serde_json::from_str` and `Value`'s indexing and `as_str`.
#[verifier::external_body]
pub fn openai_message_content(data: &str) -> (r: Option<String>)
    ensures
        r.deep_view() == openai_message_content_of(data@),
{
    serde_json::from_str::<serde_json::Value>(data)
        .ok()
        .and_then(|v| v["choices"][0]["message"]["content"].as_str().map(String::from))
}

/// The string at `delta.text` of the parsed chunk, if the chunk parses and
/// that path holds a string.
pub uninterp spec fn anthropic_text_of(s: Seq<char>) -> Option<Seq<char>>;

/// Relies on `serde_json::from_str` and `Value`'s indexing and `as_str`.
#[verifier::external_body]
pub fn anthropic_text(data: &str) -> (r: Option<String>)
    ensures
        r.deep_view() == anthropic_text_of(data@),
{
    serde_json::from_str::<serde_json::Value>(data)
        .ok()
        .and_then(|v| v["delta"]["text"].as_str().map(String::from))
}

/// Whether the parsed chunk carries a non-null top-level `error` field;
/// nothing when the chunk is not JSON.
pub uninterp spec fn google_error_of(s: Seq<char>) -> Option<bool>;

/// Relies on `serde_json::from_str` and `Value`'s indexing and `is_null`:
/// indexing a missing key yields JSON null. `None` exactly when the text
/// does not parse as JSON.
#[verifier::external_body]
pub fn google_error_flag(data: &str) -> (r: Option<bool>)
    ensures
        r == google_error_of(data@),
        r is Some <==> json_wf(data@),
{
    serde_json::from_str::<serde_json::Value>(data)
        .ok()
        .map(|v| !v["error"].is_null())
}

/// The string at `error.message` of the parsed chunk, if the chunk parses
/// and that path holds a string.
pub uninterp spec fn google_error_message_of(s: Seq<char>) -> Option<Seq<char>>;

/// Relies on `serde_json::from_str` and `Value`'s indexing and `as_str`.
#[verifier::external_body]
pub fn google_error_message(data: &str) -> (r: Option<String>)
    ensures
        r.deep_view() == google_error_message_of(data@),
{
    serde_json::from_str::<serde_json::Value>(data)
        .ok()
        .and_then(|v| v["error"]["message"].as_str().map(String::from))
}

/// The string at `candidates[0].content.parts[0].text` of the parsed
/// chunk, if the chunk parses and that path holds a string.
pub uninterp spec fn google_text_of(s: Seq<char>) -> Option<Seq<char>>;

/// Relies on `serde_json::from_str` and `Value`'s indexing and `as_str`.
#[verifier::external_body]
pub fn google_text(data: &str) -> (r: Option<String>)
    ensures
        r.deep_view() == google_text_of(data@),
{
    serde_json::from_str::<serde_json::Value>(data)
        .ok()
        .and_then(|v| v["candidates"][0]["content"]["parts"][0]["text"].as_str().map(String::from))
}

} // verus!
