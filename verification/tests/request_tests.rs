//! Request assembly: transcript ordering, body round trips, credential
//! selection, and header validation.

use llm_playground::config::{APIKey, Config, Exchange, FetchErrorKind, Provider};
use llm_playground::request::{
    build_anthropic_request_body, build_google_request_body, build_openai_request_body,
    build_request, google_contents, model_streams, openai_messages, plan_request, Role,
};

fn config(system_prompt: &str, temperature_milli: u32, max_tokens: u32, model: &str) -> Config {
    Config {
        system_prompt: system_prompt.to_string(),
        temperature_milli,
        max_tokens,
        model: model.to_string(),
        api_key: None,
        api_keys: vec![],
    }
}

fn one_exchange(user: &str, assistant: &str) -> Vec<Exchange> {
    vec![Exchange { user_message: user.to_string(), assistant_message: assistant.to_string() }]
}

fn openai_key(key: &str) -> APIKey {
    APIKey {
        name: "work".to_string(),
        key: key.to_string(),
        provider: Provider::OpenAI { base_url: "https://api.openai.com/v1".to_string() },
    }
}

#[test]
fn openai_messages_round_trip() {
    let cfg = config("S", 500, 100, "m");
    let msgs = openai_messages(&cfg, &one_exchange("a", "b"), "c");
    let got: Vec<(Role, &str)> = msgs.iter().map(|m| (m.role, m.content.as_str())).collect();
    assert_eq!(
        got,
        vec![
            (Role::System, "S"),
            (Role::User, "a"),
            (Role::Assistant, "b"),
            (Role::User, "c"),
        ]
    );
}

#[test]
fn openai_body_round_trip() {
    let cfg = config("S", 500, 100, "m");
    let body = build_openai_request_body(&cfg, &one_exchange("a", "b"), "c");
    let v: serde_json::Value = serde_json::from_str(&body).unwrap();
    assert_eq!(v["model"].as_str(), Some("m"));
    assert_eq!(v["max_completion_tokens"].as_u64(), Some(100));
    assert_eq!(v["temperature"].as_f64(), Some(0.5));
    assert_eq!(v["stream"].as_bool(), Some(true));
    let msgs = v["messages"].as_array().unwrap();
    let got: Vec<(&str, &str)> = msgs
        .iter()
        .map(|m| (m["role"].as_str().unwrap(), m["content"].as_str().unwrap()))
        .collect();
    assert_eq!(
        got,
        vec![("system", "S"), ("user", "a"), ("assistant", "b"), ("user", "c")]
    );
}

#[test]
fn google_body_round_trip() {
    let cfg = config("S", 500, 100, "m");
    let contents = google_contents(&cfg, &one_exchange("a", "b"), "c");
    let roles: Vec<Role> = contents.iter().map(|m| m.role).collect();
    assert_eq!(roles, vec![Role::User, Role::Model, Role::User]);

    let body = build_google_request_body(&cfg, &one_exchange("a", "b"), "c");
    let v: serde_json::Value = serde_json::from_str(&body).unwrap();
    assert_eq!(v["system_instruction"]["parts"][0]["text"].as_str(), Some("S"));
    assert_eq!(v["generation_config"]["temperature"].as_f64(), Some(0.5));
    assert_eq!(v["generation_config"]["max_output_tokens"].as_u64(), Some(100));
    let contents = v["contents"].as_array().unwrap();
    let got: Vec<(&str, &str)> = contents
        .iter()
        .map(|m| (m["role"].as_str().unwrap(), m["parts"][0]["text"].as_str().unwrap()))
        .collect();
    assert_eq!(got, vec![("user", "a"), ("model", "b"), ("user", "c")]);
    assert_eq!(v["safety_settings"].as_array().unwrap().len(), 4);
}

#[test]
fn anthropic_body_keeps_system_out_of_messages() {
    let cfg = config("S", 800, 1024, "m");
    let body = build_anthropic_request_body(&cfg, &one_exchange("a", "b"), "c");
    let v: serde_json::Value = serde_json::from_str(&body).unwrap();
    assert_eq!(v["system"].as_str(), Some("S"));
    assert_eq!(v["max_tokens"].as_u64(), Some(1024));
    assert_eq!(v["stream"].as_bool(), Some(true));
    let msgs = v["messages"].as_array().unwrap();
    let roles: Vec<&str> = msgs.iter().map(|m| m["role"].as_str().unwrap()).collect();
    assert_eq!(roles, vec!["user", "assistant", "user"]);
}

#[test]
fn empty_history_and_empty_system_prompt_give_single_message() {
    let cfg = config("", 500, 100, "m");
    let msgs = openai_messages(&cfg, &vec![], "hello");
    assert_eq!(msgs.len(), 1);
    assert_eq!(msgs[0].role, Role::User);
    assert_eq!(msgs[0].content, "hello");
}

#[test]
fn empty_history_with_system_prompt_gives_system_plus_one() {
    let cfg = config("S", 500, 100, "m");
    let msgs = openai_messages(&cfg, &vec![], "hello");
    assert_eq!(msgs.len(), 2);
    assert_eq!(msgs[0].role, Role::System);
    assert_eq!(msgs[1].content, "hello");
}

#[test]
fn body_escapes_json_special_characters() {
    let cfg = config("say \"hi\"\\\nplease\ttab", 500, 100, "m");
    let body = build_openai_request_body(&cfg, &vec![], "a\"b");
    let v: serde_json::Value = serde_json::from_str(&body).unwrap();
    assert_eq!(
        v["messages"][0]["content"].as_str(),
        Some("say \"hi\"\\\nplease\ttab")
    );
    assert_eq!(v["messages"][1]["content"].as_str(), Some("a\"b"));
}

#[test]
fn blocking_model_requests_non_streaming_mode() {
    assert!(!model_streams("o1-mini"));
    assert!(model_streams("gpt-4o"));
    let cfg = config("", 500, 100, "o1-mini");
    let body = build_openai_request_body(&cfg, &vec![], "p");
    let v: serde_json::Value = serde_json::from_str(&body).unwrap();
    assert_eq!(v["stream"].as_bool(), Some(false));
}

#[test]
fn out_of_range_key_index_is_a_configuration_error() {
    let mut cfg = config("", 500, 100, "m");
    cfg.api_keys = vec![openai_key("k1"), openai_key("k2")];
    cfg.api_key = Some(5);
    let err = plan_request(&cfg, &vec![], "p").unwrap_err();
    assert_eq!(err.kind, FetchErrorKind::Configuration);
    assert_eq!(err.message_text(), "Invalid selection.");
}

#[test]
fn missing_key_selection_is_a_configuration_error() {
    let cfg = config("", 500, 100, "m");
    let err = plan_request(&cfg, &vec![], "p").unwrap_err();
    assert_eq!(err.kind, FetchErrorKind::Configuration);
    assert_eq!(err.message_text(), "No API key selected.");
}

#[test]
fn malformed_key_is_a_request_construction_error() {
    let key = openai_key("bad\nkey");
    let cfg = config("", 500, 100, "m");
    let err = build_request(&key, &cfg, &vec![], "p").unwrap_err();
    assert_eq!(err.kind, FetchErrorKind::RequestConstruction);
    assert_eq!(err.message_text(), "failed to parse header value");
    // the same value is what the HTTP layer itself would refuse
    assert!(reqwest::header::HeaderValue::from_str("bad\nkey").is_err());
}

#[test]
fn openai_request_shape() {
    let key = openai_key("secret");
    let cfg = config("", 500, 100, "m");
    let req = build_request(&key, &cfg, &vec![], "p").unwrap();
    assert_eq!(req.url, "https://api.openai.com/v1/chat/completions");
    assert_eq!(req.headers[0], ("Content-Type".to_string(), "application/json".to_string()));
    assert_eq!(req.headers[1], ("Authorization".to_string(), "Bearer secret".to_string()));
    assert!(req.streaming);
    assert!(reqwest::header::HeaderValue::from_str(&req.headers[1].1).is_ok());
}

#[test]
fn anthropic_request_shape() {
    let key = APIKey {
        name: "a".to_string(),
        key: "secret".to_string(),
        provider: Provider::Anthropic,
    };
    let cfg = config("", 500, 100, "m");
    let req = build_request(&key, &cfg, &vec![], "p").unwrap();
    assert_eq!(req.url, "https://api.anthropic.com/v1/messages");
    assert_eq!(req.headers[1], ("x-api-key".to_string(), "secret".to_string()));
    assert_eq!(req.headers[2], ("anthropic-version".to_string(), "2023-06-01".to_string()));
    assert!(req.streaming);
}

#[test]
fn google_request_shape() {
    let key = APIKey {
        name: "g".to_string(),
        key: "secret".to_string(),
        provider: Provider::Google,
    };
    let cfg = config("", 500, 100, "gemini-pro");
    let req = build_request(&key, &cfg, &vec![], "p").unwrap();
    assert_eq!(
        req.url,
        "https://generativelanguage.googleapis.com/v1beta/models/gemini-pro:streamGenerateContent"
    );
    assert_eq!(req.headers[1], ("x-goog-api-key".to_string(), "secret".to_string()));
    assert!(req.streaming);
}

#[test]
fn defaults_match_the_shipped_configuration() {
    let cfg = Config::default();
    assert_eq!(cfg.system_prompt, "no yapping");
    assert_eq!(cfg.temperature_milli, 800);
    assert_eq!(cfg.max_tokens, 1024);
    assert_eq!(cfg.model, "");
    assert!(cfg.api_key.is_none());
    assert!(cfg.api_keys.is_empty());
    match Provider::default() {
        Provider::OpenAI { base_url } => assert_eq!(base_url, "https://api.openai.com/v1"),
        other => panic!("unexpected default provider: {other:?}"),
    }
}
