//! The three decoders against real wire-shaped chunks: terminators, token
//! extraction, keep-alives, provider error events, and malformed shapes.

use llm_playground::config::{FetchErrorKind, Provider};
use llm_playground::decode::{
    decode_anthropic, decode_google, decode_openai, decode_openai_blocking, decode_unit,
    SseEvent, TransportUnit,
};

fn sse(event: &str, data: &str) -> SseEvent {
    SseEvent { event: event.to_string(), data: data.to_string() }
}

// ---------------- OpenAI ----------------

#[test]
fn openai_done_sentinel_ends_the_stream() {
    let r = decode_openai(&sse("message", " [DONE] \n"));
    assert_eq!(r.unwrap(), None);
}

#[test]
fn openai_finish_reason_ends_the_stream() {
    let data = r#"{"choices":[{"finish_reason":"stop","delta":{}}]}"#;
    assert_eq!(decode_openai(&sse("message", data)).unwrap(), None);
}

#[test]
fn openai_delta_content_is_the_token() {
    let data = r#"{"choices":[{"finish_reason":null,"delta":{"content":"hel"}}]}"#;
    assert_eq!(decode_openai(&sse("message", data)).unwrap(), Some("hel".to_string()));
}

#[test]
fn openai_missing_text_path_is_a_decode_error() {
    let err = decode_openai(&sse("message", r#"{"object":"chat.completion.chunk"}"#)).unwrap_err();
    assert_eq!(err.kind, FetchErrorKind::Decode);
    assert_eq!(err.message_text(), "Error parsing response.");
}

#[test]
fn openai_invalid_json_is_a_decode_error() {
    let err = decode_openai(&sse("message", "not json")).unwrap_err();
    assert_eq!(err.kind, FetchErrorKind::Decode);
}

#[test]
fn openai_error_event_is_a_protocol_error() {
    let err = decode_openai(&sse("error", "server overloaded")).unwrap_err();
    assert_eq!(err.kind, FetchErrorKind::Protocol);
    assert_eq!(err.message_text(), "server overloaded");
}

#[test]
fn openai_blocking_body_is_decoded_whole() {
    let body = r#"{"choices":[{"message":{"content":"full answer"}}]}"#;
    assert_eq!(decode_openai_blocking(body).unwrap(), "full answer");
    let err = decode_openai_blocking(r#"{"choices":[]}"#).unwrap_err();
    assert_eq!(err.kind, FetchErrorKind::Decode);
}

// ---------------- Anthropic ----------------

#[test]
fn anthropic_delta_text_is_the_token() {
    let data = r#"{"type":"content_block_delta","delta":{"type":"text_delta","text":"tok"}}"#;
    assert_eq!(
        decode_anthropic(&sse("content_block_delta", data)).unwrap(),
        Some("tok".to_string())
    );
}

#[test]
fn anthropic_other_events_are_keep_alives() {
    let r = decode_anthropic(&sse("message_start", r#"{"type":"message_start"}"#));
    assert_eq!(r.unwrap(), Some(String::new()));
}

#[test]
fn anthropic_missing_text_path_is_a_decode_error() {
    let err = decode_anthropic(&sse("content_block_delta", r#"{"delta":{}}"#)).unwrap_err();
    assert_eq!(err.kind, FetchErrorKind::Decode);
    assert_eq!(err.message_text(), "Error parsing response.");
}

#[test]
fn anthropic_invalid_json_fails_even_on_keep_alive_events() {
    let err = decode_anthropic(&sse("ping", "{")).unwrap_err();
    assert_eq!(err.kind, FetchErrorKind::Decode);
}

#[test]
fn anthropic_error_event_is_a_protocol_error() {
    let err = decode_anthropic(&sse("error", "overloaded")).unwrap_err();
    assert_eq!(err.kind, FetchErrorKind::Protocol);
    assert_eq!(err.message_text(), "overloaded");
}

// ---------------- Google ----------------

#[test]
fn google_trailing_bracket_ends_the_stream() {
    assert_eq!(decode_google(b"]\n".to_vec()).unwrap(), None);
}

#[test]
fn google_first_chunk_is_unframed_and_decoded() {
    let chunk = br#"[{"candidates":[{"content":{"parts":[{"text":"hello"}]}}]}"#.to_vec();
    assert_eq!(decode_google(chunk).unwrap(), Some("hello".to_string()));
}

#[test]
fn google_continuation_chunk_is_unframed_and_decoded() {
    let chunk = br#",{"candidates":[{"content":{"parts":[{"text":" world"}]}}]}"#.to_vec();
    assert_eq!(decode_google(chunk).unwrap(), Some(" world".to_string()));
}

#[test]
fn google_last_element_with_closing_bracket_is_decoded() {
    let chunk = br#",{"candidates":[{"content":{"parts":[{"text":"!"}]}}]}]"#.to_vec();
    assert_eq!(decode_google(chunk).unwrap(), Some("!".to_string()));
}

#[test]
fn google_error_field_is_a_protocol_error_with_the_provider_message() {
    let err = decode_google(br#"{"error":{"message":"quota exceeded"}}"#.to_vec()).unwrap_err();
    assert_eq!(err.kind, FetchErrorKind::Protocol);
    assert_eq!(err.message_text(), "quota exceeded");
}

#[test]
fn google_error_without_message_gets_the_fixed_text() {
    let err = decode_google(br#"{"error":{"code":500}}"#.to_vec()).unwrap_err();
    assert_eq!(err.kind, FetchErrorKind::Protocol);
    assert_eq!(err.message_text(), "Error with request.");
}

#[test]
fn google_missing_text_path_is_a_decode_error() {
    let err = decode_google(br#"{"candidates":[]}"#.to_vec()).unwrap_err();
    assert_eq!(err.kind, FetchErrorKind::Decode);
    assert_eq!(err.message_text(), "Error parsing response.");
}

#[test]
fn google_invalid_utf8_is_a_decode_error() {
    let err = decode_google(vec![0xff, 0xfe, 0x00]).unwrap_err();
    assert_eq!(err.kind, FetchErrorKind::Decode);
    assert_eq!(err.message_text(), "Invalid UTF-8 in response.");
}

// ---------------- Dispatch ----------------

#[test]
fn connection_open_is_an_empty_keep_alive_for_every_provider() {
    for provider in [
        Provider::OpenAI { base_url: "https://api.openai.com/v1".to_string() },
        Provider::Anthropic,
        Provider::Google,
    ] {
        let r = decode_unit(&provider, TransportUnit::Open);
        assert_eq!(r.unwrap(), Some(String::new()));
    }
}

#[test]
fn transport_failure_carries_its_message() {
    let err = decode_unit(&Provider::Anthropic, TransportUnit::Failed("connection reset".to_string()))
        .unwrap_err();
    assert_eq!(err.kind, FetchErrorKind::Transport);
    assert_eq!(err.message_text(), "connection reset");
}

#[test]
fn dispatch_selects_the_decoder_by_provider_tag() {
    let openai = Provider::OpenAI { base_url: "https://api.openai.com/v1".to_string() };
    let done = decode_unit(&openai, TransportUnit::Sse(sse("message", "[DONE]")));
    assert_eq!(done.unwrap(), None);

    let end = decode_unit(&Provider::Google, TransportUnit::Chunk(b"]".to_vec()));
    assert_eq!(end.unwrap(), None);

    let keep_alive = decode_unit(&Provider::Anthropic, TransportUnit::Sse(sse("ping", "{}")));
    assert_eq!(keep_alive.unwrap(), Some(String::new()));
}
