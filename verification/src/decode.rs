//! The three protocol-specific response decoders.
//!
//! Contract, identical across providers: given one incremental unit from
//! the transport, return `Ok(Some(text))` for a token (possibly the empty
//! keep-alive token), `Ok(None)` for stream end, and `Err` for a terminal
//! failure. Every unrecognized shape fails loudly as a decode error; a
//! provider-issued error event or field becomes a protocol error carrying
//! the provider's message verbatim.

use vstd::prelude::*;
use crate::config::{FetchError, FetchErrorKind, Provider};
use crate::json::{
    anthropic_text, anthropic_text_of, google_error_flag, google_error_message,
    google_error_message_of, google_error_of, google_text, google_text_of, json_wf,
    json_well_formed, openai_content, openai_content_of, openai_finish, openai_finish_of,
    openai_message_content, openai_message_content_of,
};
use crate::text::{str_eq, trim, trim_spec, utf8_decode, utf8_of};

verus! {

/// One server-sent event: its event name and its data payload.
#[derive(Clone, Debug)]
pub struct SseEvent {
    pub event: String,
    pub data: String,
}

/// One incremental unit as the transport hands it over: connection open,
/// an SSE event, a raw byte chunk, or a transport-level failure.
#[derive(Debug)]
pub enum TransportUnit {
    Open,
    Sse(SseEvent),
    Chunk(Vec<u8>),
    Failed(String),
}

/// The mathematical content of one decode outcome.
pub open spec fn outcome_view(r: Result<Option<String>, FetchError>) -> Result<
    Option<Seq<char>>,
    (FetchErrorKind, Seq<char>),
> {
    match r {
        Ok(None) => Ok(None),
        Ok(Some(s)) => Ok(Some(s@)),
        Err(e) => Err((e.kind, e.message@)),
    }
}

/// The message reported whenever a response unit does not match the
/// provider's expected shape.
pub open spec fn parse_error_msg() -> Seq<char> {
    "Error parsing response."@
}

fn parse_error() -> (r: FetchError)
    ensures
        r.kind == FetchErrorKind::Decode,
        r.message@ == parse_error_msg(),
{
    FetchError { kind: FetchErrorKind::Decode, message: String::from_str("Error parsing response.") }
}

/// What one OpenAI SSE unit decodes to: a server `error` event is a
/// protocol error carrying its data; `[DONE]` ends the stream; otherwise
/// the chunk must parse as JSON, a set `finish_reason` ends the stream,
/// and the token text is at `choices[0].delta.content`.
pub open spec fn openai_decode(event: Seq<char>, data: Seq<char>) -> Result<
    Option<Seq<char>>,
    (FetchErrorKind, Seq<char>),
> {
    if event == "error"@ {
        Err((FetchErrorKind::Protocol, data))
    } else if trim_spec(data) == "[DONE]"@ {
        Ok(None)
    } else if !json_wf(data) {
        Err((FetchErrorKind::Decode, parse_error_msg()))
    } else if openai_finish_of(data) == Some(true) {
        Ok(None)
    } else {
        match openai_content_of(data) {
            Some(t) => Ok(Some(t)),
            None => Err((FetchErrorKind::Decode, parse_error_msg())),
        }
    }
}

/// Decodes one OpenAI SSE unit.
pub fn decode_openai(ev: &SseEvent) -> (r: Result<Option<String>, FetchError>)
    ensures
        outcome_view(r) == openai_decode(ev.event@, ev.data@),
{
    if str_eq(ev.event.as_str(), "error") {
        return Err(FetchError { kind: FetchErrorKind::Protocol, message: ev.data.clone() });
    }
    if str_eq(trim(ev.data.as_str()), "[DONE]") {
        return Ok(None);
    }
    match openai_finish(ev.data.as_str()) {
        None => Err(parse_error()),
        Some(true) => Ok(None),
        Some(false) => {
            match openai_content(ev.data.as_str()) {
                Some(t) => Ok(Some(t)),
                None => Err(parse_error()),
            }
        },
    }
}

/// What one Anthropic SSE unit decodes to: a server `error` event is a
/// protocol error; every chunk must parse as JSON; only
/// `content_block_delta` events carry text (at `delta.text`), all other
/// event kinds are empty keep-alive tokens; the end comes from transport
/// closure, not from an explicit sentinel.
pub open spec fn anthropic_decode(event: Seq<char>, data: Seq<char>) -> Result<
    Option<Seq<char>>,
    (FetchErrorKind, Seq<char>),
> {
    if event == "error"@ {
        Err((FetchErrorKind::Protocol, data))
    } else if !json_wf(data) {
        Err((FetchErrorKind::Decode, parse_error_msg()))
    } else if event != "content_block_delta"@ {
        Ok(Some(Seq::empty()))
    } else {
        match anthropic_text_of(data) {
            Some(t) => Ok(Some(t)),
            None => Err((FetchErrorKind::Decode, parse_error_msg())),
        }
    }
}

/// Decodes one Anthropic SSE unit.
pub fn decode_anthropic(ev: &SseEvent) -> (r: Result<Option<String>, FetchError>)
    ensures
        outcome_view(r) == anthropic_decode(ev.event@, ev.data@),
{
    if str_eq(ev.event.as_str(), "error") {
        return Err(FetchError { kind: FetchErrorKind::Protocol, message: ev.data.clone() });
    }
    if !json_well_formed(ev.data.as_str()) {
        return Err(parse_error());
    }
    if !str_eq(ev.event.as_str(), "content_block_delta") {
        return Ok(Some(String::new()));
    }
    match anthropic_text(ev.data.as_str()) {
        Some(t) => Ok(Some(t)),
        None => Err(parse_error()),
    }
}

/// The JSON payload of one Google array chunk: framing whitespace is
/// trimmed, one leading `[` or `,` is stripped, and a trailing `]` is
/// stripped; nothing left after stripping a trailing `]` marks the end of
/// the stream.
pub open spec fn google_payload(text: Seq<char>) -> Option<Seq<char>> {
    let t = trim_spec(text);
    let t1 = if t.len() > 0 && (t[0] == '[' || t[0] == ',') {
        t.subrange(1, t.len() as int)
    } else {
        t
    };
    if t1.len() > 0 && t1[t1.len() - 1] == ']' {
        let t2 = t1.subrange(0, t1.len() - 1);
        if t2.len() == 0 {
            None
        } else {
            Some(t2)
        }
    } else {
        Some(t1)
    }
}

/// What one Google chunk's JSON payload decodes to: nothing left means
/// stream end; the payload must parse as JSON; a non-null top-level
/// `error` is a protocol error carrying `error.message` (or a fixed text
/// when that is missing); the token text is at
/// `candidates[0].content.parts[0].text`.
pub open spec fn google_decode(text: Seq<char>) -> Result<
    Option<Seq<char>>,
    (FetchErrorKind, Seq<char>),
> {
    match google_payload(text) {
        None => Ok(None),
        Some(p) => {
            if !json_wf(p) {
                Err((FetchErrorKind::Decode, parse_error_msg()))
            } else if google_error_of(p) == Some(true) {
                Err((
                    FetchErrorKind::Protocol,
                    match google_error_message_of(p) {
                        Some(m) => m,
                        None => "Error with request."@,
                    },
                ))
            } else {
                match google_text_of(p) {
                    Some(t) => Ok(Some(t)),
                    None => Err((FetchErrorKind::Decode, parse_error_msg())),
                }
            }
        },
    }
}

/// Decodes the text of one Google array chunk.
pub fn decode_google_text(text: &str) -> (r: Result<Option<String>, FetchError>)
    ensures
        outcome_view(r) == google_decode(text@),
{
    let t = trim(text);
    let t_len = t.unicode_len();
    let mut t1 = t;
    if t_len > 0 {
        let c = t.get_char(0);
        if c == '[' || c == ',' {
            t1 = t.substring_char(1, t_len);
        }
    }
    let t1_len = t1.unicode_len();
    let mut payload = t1;
    if t1_len > 0 && t1.get_char(t1_len - 1) == ']' {
        let t2 = t1.substring_char(0, t1_len - 1);
        if t2.unicode_len() == 0 {
            return Ok(None);
        }
        payload = t2;
    }
    assert(google_payload(text@) == Some(payload@));
    if !json_well_formed(payload) {
        return Err(parse_error());
    }
    match google_error_flag(payload) {
        None => {
            // unreachable: the payload parsed as JSON, so the error flag
            // is known either way
            assert(false);
            Err(parse_error())
        },
        Some(true) => {
            let message = match google_error_message(payload) {
                Some(m) => m,
                None => String::from_str("Error with request."),
            };
            Err(FetchError { kind: FetchErrorKind::Protocol, message })
        },
        Some(false) => {
            match google_text(payload) {
                Some(t2) => Ok(Some(t2)),
                None => Err(parse_error()),
            }
        },
    }
}

/// Decodes one Google byte chunk: the bytes must be UTF-8 text, whose
/// payload is then decoded.
pub fn decode_google(chunk: Vec<u8>) -> (r: Result<Option<String>, FetchError>)
    ensures
        outcome_view(r) == match utf8_of(chunk@) {
            None => Err::<Option<Seq<char>>, (FetchErrorKind, Seq<char>)>((
                FetchErrorKind::Decode,
                "Invalid UTF-8 in response."@,
            )),
            Some(t) => google_decode(t),
        },
{
    match utf8_decode(chunk) {
        None => Err(FetchError {
            kind: FetchErrorKind::Decode,
            message: String::from_str("Invalid UTF-8 in response."),
        }),
        Some(text) => decode_google_text(text.as_str()),
    }
}

/// What a non-streaming OpenAI response body decodes to: the full reply
/// text at `choices[0].message.content`.
pub open spec fn openai_blocking_decode(body: Seq<char>) -> Result<
    Seq<char>,
    (FetchErrorKind, Seq<char>),
> {
    if !json_wf(body) {
        Err((FetchErrorKind::Decode, parse_error_msg()))
    } else {
        match openai_message_content_of(body) {
            Some(t) => Ok(t),
            None => Err((FetchErrorKind::Decode, parse_error_msg())),
        }
    }
}

/// Decodes the body of a blocking (non-streaming) OpenAI response; the
/// caller synthesizes a two-frame stream out of the result.
pub fn decode_openai_blocking(body: &str) -> (r: Result<String, FetchError>)
    ensures
        (match r {
            Ok(t) => Ok(t@),
            Err(e) => Err((e.kind, e.message@)),
        }) == openai_blocking_decode(body@),
{
    if !json_well_formed(body) {
        return Err(parse_error());
    }
    match openai_message_content(body) {
        Some(t) => Ok(t),
        None => Err(parse_error()),
    }
}

/// What one transport unit decodes to for a provider: connection open is
/// an empty keep-alive token, a transport failure carries its message, and
/// an SSE event or byte chunk goes to the provider's own decoder. A unit
/// in the wrong framing for the provider is a decode error.
pub open spec fn unit_decode(p: Provider, u: TransportUnit) -> Result<
    Option<Seq<char>>,
    (FetchErrorKind, Seq<char>),
> {
    match u {
        TransportUnit::Open => Ok(Some(Seq::empty())),
        TransportUnit::Failed(msg) => Err((FetchErrorKind::Transport, msg@)),
        TransportUnit::Sse(ev) => match p {
            Provider::OpenAI { .. } => openai_decode(ev.event@, ev.data@),
            Provider::Anthropic => anthropic_decode(ev.event@, ev.data@),
            Provider::Google => Err((FetchErrorKind::Decode, parse_error_msg())),
        },
        TransportUnit::Chunk(bytes) => match p {
            Provider::Google => match utf8_of(bytes@) {
                None => Err((FetchErrorKind::Decode, "Invalid UTF-8 in response."@)),
                Some(t) => google_decode(t),
            },
            _ => Err((FetchErrorKind::Decode, parse_error_msg())),
        },
    }
}

/// Decodes one transport unit with the decoder the provider tag selects.
pub fn decode_unit(provider: &Provider, unit: TransportUnit) -> (r: Result<Option<String>, FetchError>)
    ensures
        outcome_view(r) == unit_decode(*provider, unit),
{
    match unit {
        TransportUnit::Open => Ok(Some(String::new())),
        TransportUnit::Failed(msg) => Err(FetchError { kind: FetchErrorKind::Transport, message: msg }),
        TransportUnit::Sse(ev) => match provider {
            Provider::OpenAI { .. } => decode_openai(&ev),
            Provider::Anthropic => decode_anthropic(&ev),
            Provider::Google => Err(parse_error()),
        },
        TransportUnit::Chunk(bytes) => match provider {
            Provider::Google => decode_google(bytes),
            _ => Err(parse_error()),
        },
    }
}

// ------------------------------------------------------------------
// Decoder laws.
// ------------------------------------------------------------------

/// Law: an OpenAI unit whose data is the `[DONE]` sentinel (up to framing
/// whitespace) decodes to the end marker.
pub proof fn lemma_openai_terminator(event: Seq<char>, data: Seq<char>)
    requires
        event != "error"@,
        trim_spec(data) == "[DONE]"@,
    ensures
        openai_decode(event, data) == Ok::<Option<Seq<char>>, (FetchErrorKind, Seq<char>)>(None),
{
}

/// Law: a Google chunk that is just the closing bracket of the JSON array
/// (up to framing whitespace) decodes to the end marker.
pub proof fn lemma_google_terminator(text: Seq<char>)
    requires
        trim_spec(text) == "]"@,
    ensures
        google_decode(text) == Ok::<Option<Seq<char>>, (FetchErrorKind, Seq<char>)>(None),
{
    reveal_strlit("]");
    reveal_strlit("[");
    reveal_strlit(",");
    let t = trim_spec(text);
    assert(t.len() == 1 && t[0] == ']');
    assert(google_payload(text) is None);
}

/// Law: an OpenAI chunk that parses as JSON but carries neither a set
/// `finish_reason` nor a `choices[0].delta.content` string decodes to a
/// decode error.
pub proof fn lemma_openai_missing_text(event: Seq<char>, data: Seq<char>)
    requires
        event != "error"@,
        trim_spec(data) != "[DONE]"@,
        openai_finish_of(data) != Some(true),
        openai_content_of(data) is None,
    ensures
        openai_decode(event, data) matches Err(e) && e.0 == FetchErrorKind::Decode,
{
}

/// Law: an Anthropic `content_block_delta` chunk without a `delta.text`
/// string decodes to a decode error.
pub proof fn lemma_anthropic_missing_text(data: Seq<char>)
    requires
        anthropic_text_of(data) is None,
    ensures
        anthropic_decode("content_block_delta"@, data) matches Err(e)
            && e.0 == FetchErrorKind::Decode,
{
    reveal_strlit("content_block_delta");
    reveal_strlit("error");
    assert("content_block_delta"@.len() == 19);
    assert("error"@.len() == 5);
    assert("content_block_delta"@ != "error"@);
}

/// Law: a Google chunk whose payload carries neither an error field nor a
/// `candidates[0].content.parts[0].text` string decodes to a decode error.
pub proof fn lemma_google_missing_text(text: Seq<char>)
    requires
        google_payload(text) matches Some(p) && google_error_of(p) != Some(true)
            && google_text_of(p) is None,
    ensures
        google_decode(text) matches Err(e) && e.0 == FetchErrorKind::Decode,
{
}

} // verus!
