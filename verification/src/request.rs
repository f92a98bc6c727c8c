//! Request assembly: the provider-specific transcript, JSON body, headers
//! and endpoint URL for one completion request.
//!
//! Message ordering is uniform across providers: an optional leading
//! system message (Google always sends its system instruction, the others
//! omit an empty one), then for each exchange a user message followed by
//! an assistant message, then the prompt as a final user message.

use vstd::prelude::*;
use crate::config::{select_api_key, APIKey, Config, Exchange, FetchError, FetchErrorKind, Provider};
use crate::json::json_string;
use crate::text::{bool_str, dec_str, milli_str, push_bool, push_char, push_dec, push_milli, starts_with, starts_with_spec};
use crate::json::push_json_string;

verus! {

/// The role a transcript message is attributed to. `Model` is Google's
/// name for the assistant side.
#[derive(Clone, Copy, Debug, PartialEq, Eq, Structural)]
pub enum Role {
    System,
    User,
    Assistant,
    Model,
}

/// One transcript message.
#[derive(Clone, Debug, PartialEq)]
pub struct Message {
    pub role: Role,
    pub content: String,
}

/// The mathematical content of a message: its role and its text.
pub open spec fn msg_view(m: Message) -> (Role, Seq<char>) {
    (m.role, m.content@)
}

pub open spec fn msgs_view(ms: Seq<Message>) -> Seq<(Role, Seq<char>)>
    decreases ms.len(),
{
    if ms.len() == 0 {
        Seq::empty()
    } else {
        msgs_view(ms.drop_last()).push(msg_view(ms.last()))
    }
}

proof fn lemma_msgs_view_push(s: Seq<Message>, m: Message)
    ensures
        msgs_view(s.push(m)) == msgs_view(s).push(msg_view(m)),
{
    assert(s.push(m).drop_last() =~= s);
    assert(s.push(m).last() == m);
}

proof fn lemma_msgs_view_index(ms: Seq<Message>)
    ensures
        msgs_view(ms).len() == ms.len(),
        forall|i: int| 0 <= i < ms.len() ==> msgs_view(ms)[i] == msg_view(ms[i]),
    decreases ms.len(),
{
    if ms.len() > 0 {
        lemma_msgs_view_index(ms.drop_last());
    }
}

/// The user/assistant pairs of the first `i` exchanges, the assistant side
/// attributed to `assistant_role`.
pub open spec fn pair_list(h: Seq<Exchange>, i: int, assistant_role: Role) -> Seq<(Role, Seq<char>)>
    decreases i,
{
    if i <= 0 {
        Seq::empty()
    } else {
        pair_list(h, i - 1, assistant_role)
            + seq![(Role::User, h[i - 1].user_message@), (assistant_role, h[i - 1].assistant_message@)]
    }
}

/// The full transcript: optional system message, the exchange pairs oldest
/// first, then the prompt as a final user message.
pub open spec fn transcript(
    sys: Seq<char>,
    include_system: bool,
    h: Seq<Exchange>,
    prompt: Seq<char>,
    assistant_role: Role,
) -> Seq<(Role, Seq<char>)> {
    (if include_system {
        seq![(Role::System, sys)]
    } else {
        Seq::empty()
    }) + pair_list(h, h.len() as int, assistant_role) + seq![(Role::User, prompt)]
}

fn push_pairs(msgs: &mut Vec<Message>, exchanges: &Vec<Exchange>, assistant_role: Role)
    ensures
        msgs_view(final(msgs)@) == msgs_view(old(msgs)@) + pair_list(exchanges@, exchanges@.len() as int, assistant_role),
{
    let ghost base = msgs@;
    let mut k: usize = 0;
    while k < exchanges.len()
        invariant
            k <= exchanges@.len(),
            msgs_view(msgs@) == msgs_view(base) + pair_list(exchanges@, k as int, assistant_role),
        decreases exchanges@.len() - k,
    {
        let ghost before = msgs@;
        let user_msg = Message { role: Role::User, content: exchanges[k].user_message.clone() };
        let assistant_msg = Message {
            role: assistant_role,
            content: exchanges[k].assistant_message.clone(),
        };
        proof {
            lemma_msgs_view_push(before, user_msg);
            lemma_msgs_view_push(before.push(user_msg), assistant_msg);
        }
        msgs.push(user_msg);
        msgs.push(assistant_msg);
        assert(msgs_view(msgs@) =~~= msgs_view(base) + pair_list(exchanges@, k as int + 1, assistant_role));
        k += 1;
    }
    assert(msgs_view(msgs@) =~~= msgs_view(base) + pair_list(exchanges@, exchanges@.len() as int, assistant_role));
}

fn build_messages(
    system_prompt: &String,
    include_system: bool,
    exchanges: &Vec<Exchange>,
    prompt: &str,
    assistant_role: Role,
) -> (r: Vec<Message>)
    ensures
        msgs_view(r@) == transcript(system_prompt@, include_system, exchanges@, prompt@, assistant_role),
{
    let mut msgs: Vec<Message> = Vec::new();
    assert(msgs_view(msgs@) =~~= Seq::<(Role, Seq<char>)>::empty());
    if include_system {
        let system_msg = Message { role: Role::System, content: system_prompt.clone() };
        proof {
            lemma_msgs_view_push(msgs@, system_msg);
        }
        msgs.push(system_msg);
        assert(msgs_view(msgs@) =~~= seq![(Role::System, system_prompt@)]);
    }
    push_pairs(&mut msgs, exchanges, assistant_role);
    let prompt_msg = Message { role: Role::User, content: String::from_str(prompt) };
    proof {
        lemma_msgs_view_push(msgs@, prompt_msg);
    }
    msgs.push(prompt_msg);
    assert(msgs_view(msgs@) =~~= transcript(system_prompt@, include_system, exchanges@, prompt@, assistant_role));
    msgs
}

/// The transcript sent to an OpenAI-style endpoint: the system prompt
/// leads when it is non-empty.
pub fn openai_messages(config: &Config, exchanges: &Vec<Exchange>, prompt: &str) -> (r: Vec<Message>)
    ensures
        msgs_view(r@) == transcript(
            config.system_prompt@,
            config.system_prompt@.len() > 0,
            exchanges@,
            prompt@,
            Role::Assistant,
        ),
{
    let include_system = config.system_prompt.as_str().unicode_len() > 0;
    build_messages(&config.system_prompt, include_system, exchanges, prompt, Role::Assistant)
}

/// The transcript sent to Anthropic: the system prompt travels in a
/// top-level field, never in the message list.
pub fn anthropic_messages(config: &Config, exchanges: &Vec<Exchange>, prompt: &str) -> (r: Vec<Message>)
    ensures
        msgs_view(r@) == transcript(
            config.system_prompt@,
            false,
            exchanges@,
            prompt@,
            Role::Assistant,
        ),
{
    build_messages(&config.system_prompt, false, exchanges, prompt, Role::Assistant)
}

/// The `contents` list sent to Google: the assistant side is the `model`
/// role, and the system instruction travels in a top-level field.
pub fn google_contents(config: &Config, exchanges: &Vec<Exchange>, prompt: &str) -> (r: Vec<Message>)
    ensures
        msgs_view(r@) == transcript(
            config.system_prompt@,
            false,
            exchanges@,
            prompt@,
            Role::Model,
        ),
{
    build_messages(&config.system_prompt, false, exchanges, prompt, Role::Model)
}

/// The wire name of a role.
pub open spec fn role_name(r: Role) -> Seq<char> {
    match r {
        Role::System => "system"@,
        Role::User => "user"@,
        Role::Assistant => "assistant"@,
        Role::Model => "model"@,
    }
}

fn push_role_name(out: &mut String, role: Role)
    ensures
        final(out)@ == old(out)@ + role_name(role),
{
    match role {
        Role::System => out.append("system"),
        Role::User => out.append("user"),
        Role::Assistant => out.append("assistant"),
        Role::Model => out.append("model"),
    }
}

/// One message as a chat-style JSON object.
pub open spec fn chat_msg_json(m: (Role, Seq<char>)) -> Seq<char> {
    "{\"role\":\""@ + role_name(m.0) + "\",\"content\":"@ + json_string(m.1) + "}"@
}

/// One message as a Google-style JSON object with a single text part.
pub open spec fn google_msg_json(m: (Role, Seq<char>)) -> Seq<char> {
    "{\"role\":\""@ + role_name(m.0) + "\",\"parts\":[{\"text\":"@ + json_string(m.1) + "}]}"@
}

/// The first `i` messages as chat-style objects, separated by commas.
pub open spec fn chat_list_prefix(ms: Seq<(Role, Seq<char>)>, i: int) -> Seq<char>
    decreases i,
{
    if i <= 0 {
        Seq::empty()
    } else if i == 1 {
        chat_msg_json(ms[0])
    } else {
        chat_list_prefix(ms, i - 1) + seq![','] + chat_msg_json(ms[i - 1])
    }
}

/// A comma-separated list of chat-style message objects.
pub open spec fn chat_list(ms: Seq<(Role, Seq<char>)>) -> Seq<char> {
    chat_list_prefix(ms, ms.len() as int)
}

/// The first `i` messages as Google-style objects, separated by commas.
pub open spec fn google_list_prefix(ms: Seq<(Role, Seq<char>)>, i: int) -> Seq<char>
    decreases i,
{
    if i <= 0 {
        Seq::empty()
    } else if i == 1 {
        google_msg_json(ms[0])
    } else {
        google_list_prefix(ms, i - 1) + seq![','] + google_msg_json(ms[i - 1])
    }
}

/// A comma-separated list of Google-style message objects.
pub open spec fn google_list(ms: Seq<(Role, Seq<char>)>) -> Seq<char> {
    google_list_prefix(ms, ms.len() as int)
}

fn push_chat_msg(out: &mut String, m: &Message)
    ensures
        final(out)@ == old(out)@ + chat_msg_json(msg_view(*m)),
{
    out.append("{\"role\":\"");
    push_role_name(out, m.role);
    out.append("\",\"content\":");
    push_json_string(out, m.content.as_str());
    out.append("}");
    assert(out@ =~= old(out)@ + chat_msg_json(msg_view(*m)));
}

fn push_google_msg(out: &mut String, m: &Message)
    ensures
        final(out)@ == old(out)@ + google_msg_json(msg_view(*m)),
{
    out.append("{\"role\":\"");
    push_role_name(out, m.role);
    out.append("\",\"parts\":[{\"text\":");
    push_json_string(out, m.content.as_str());
    out.append("}]}");
    assert(out@ =~= old(out)@ + google_msg_json(msg_view(*m)));
}

fn push_chat_list(out: &mut String, msgs: &Vec<Message>)
    ensures
        final(out)@ == old(out)@ + chat_list(msgs_view(msgs@)),
{
    let ghost base = out@;
    let ghost view = msgs_view(msgs@);
    proof {
        lemma_msgs_view_index(msgs@);
    }
    let mut k: usize = 0;
    while k < msgs.len()
        invariant
            k <= msgs@.len(),
            view == msgs_view(msgs@),
            view.len() == msgs@.len(),
            forall|i: int| 0 <= i < msgs@.len() ==> view[i] == msg_view(msgs@[i]),
            out@ == base + chat_list_prefix(view, k as int),
        decreases msgs@.len() - k,
    {
        if k > 0 {
            push_char(out, ',');
        }
        push_chat_msg(out, &msgs[k]);
        assert(view[k as int] == msg_view(msgs@[k as int]));
        assert(out@ =~= base + chat_list_prefix(view, k as int + 1));
        k += 1;
    }
    assert(out@ =~= base + chat_list(msgs_view(msgs@)));
}

fn push_google_list(out: &mut String, msgs: &Vec<Message>)
    ensures
        final(out)@ == old(out)@ + google_list(msgs_view(msgs@)),
{
    let ghost base = out@;
    let ghost view = msgs_view(msgs@);
    proof {
        lemma_msgs_view_index(msgs@);
    }
    let mut k: usize = 0;
    while k < msgs.len()
        invariant
            k <= msgs@.len(),
            view == msgs_view(msgs@),
            view.len() == msgs@.len(),
            forall|i: int| 0 <= i < msgs@.len() ==> view[i] == msg_view(msgs@[i]),
            out@ == base + google_list_prefix(view, k as int),
        decreases msgs@.len() - k,
    {
        if k > 0 {
            push_char(out, ',');
        }
        push_google_msg(out, &msgs[k]);
        assert(view[k as int] == msg_view(msgs@[k as int]));
        assert(out@ =~= base + google_list_prefix(view, k as int + 1));
        k += 1;
    }
    assert(out@ =~= base + google_list(msgs_view(msgs@)));
}

/// The OpenAI-style request body.
pub open spec fn openai_body_spec(
    model: Seq<char>,
    max_tokens: nat,
    temperature_milli: nat,
    stream: bool,
    msgs: Seq<(Role, Seq<char>)>,
) -> Seq<char> {
    "{\"model\":"@ + json_string(model)
        + ",\"max_completion_tokens\":"@ + dec_str(max_tokens)
        + ",\"temperature\":"@ + milli_str(temperature_milli)
        + ",\"stream\":"@ + bool_str(stream)
        + ",\"messages\":["@ + chat_list(msgs) + "]}"@
}

/// The Anthropic request body; streaming is always requested and the
/// system prompt rides in the top-level `system` field.
pub open spec fn anthropic_body_spec(
    model: Seq<char>,
    max_tokens: nat,
    temperature_milli: nat,
    sys: Seq<char>,
    msgs: Seq<(Role, Seq<char>)>,
) -> Seq<char> {
    "{\"model\":"@ + json_string(model)
        + ",\"max_tokens\":"@ + dec_str(max_tokens)
        + ",\"temperature\":"@ + milli_str(temperature_milli)
        + ",\"stream\":true,\"system\":"@ + json_string(sys)
        + ",\"messages\":["@ + chat_list(msgs) + "]}"@
}

/// The fixed permissive safety settings sent to Google, so that content is
/// not silently suppressed.
pub open spec fn google_safety_settings() -> Seq<char> {
    "[{\"category\":\"HARM_CATEGORY_SEXUALLY_EXPLICIT\",\"threshold\":\"BLOCK_NONE\"},{\"category\":\"HARM_CATEGORY_HATE_SPEECH\",\"threshold\":\"BLOCK_NONE\"},{\"category\":\"HARM_CATEGORY_HARASSMENT\",\"threshold\":\"BLOCK_NONE\"},{\"category\":\"HARM_CATEGORY_DANGEROUS_CONTENT\",\"threshold\":\"BLOCK_NONE\"}]"@
}

/// The Google request body; the system instruction is always present,
/// possibly empty.
pub open spec fn google_body_spec(
    max_tokens: nat,
    temperature_milli: nat,
    sys: Seq<char>,
    msgs: Seq<(Role, Seq<char>)>,
) -> Seq<char> {
    "{\"generation_config\":{\"temperature\":"@ + milli_str(temperature_milli)
        + ",\"max_output_tokens\":"@ + dec_str(max_tokens)
        + "},\"system_instruction\":{\"parts\":[{\"text\":"@ + json_string(sys)
        + "}]},\"safety_settings\":"@ + google_safety_settings()
        + ",\"contents\":["@ + google_list(msgs) + "]}"@
}

/// Whether the selected model supports incremental delivery; one OpenAI
/// model family only answers blocking requests.
pub fn model_streams(model: &str) -> (r: bool)
    ensures
        r == !starts_with_spec(model@, "o1"@),
{
    !starts_with(model, "o1")
}

/// Renders the OpenAI-style request body for this configuration.
pub fn build_openai_request_body(config: &Config, exchanges: &Vec<Exchange>, prompt: &str) -> (r: String)
    ensures
        r@ == openai_body_spec(
            config.model@,
            config.max_tokens as nat,
            config.temperature_milli as nat,
            !starts_with_spec(config.model@, "o1"@),
            transcript(
                config.system_prompt@,
                config.system_prompt@.len() > 0,
                exchanges@,
                prompt@,
                Role::Assistant,
            ),
        ),
{
    let msgs = openai_messages(config, exchanges, prompt);
    let mut out = String::new();
    out.append("{\"model\":");
    push_json_string(&mut out, config.model.as_str());
    out.append(",\"max_completion_tokens\":");
    push_dec(&mut out, config.max_tokens);
    out.append(",\"temperature\":");
    push_milli(&mut out, config.temperature_milli);
    out.append(",\"stream\":");
    push_bool(&mut out, model_streams(config.model.as_str()));
    out.append(",\"messages\":[");
    push_chat_list(&mut out, &msgs);
    out.append("]}");
    assert(out@ =~= openai_body_spec(
        config.model@,
        config.max_tokens as nat,
        config.temperature_milli as nat,
        !starts_with_spec(config.model@, "o1"@),
        msgs_view(msgs@),
    ));
    out
}

/// Renders the Anthropic request body for this configuration.
pub fn build_anthropic_request_body(config: &Config, exchanges: &Vec<Exchange>, prompt: &str) -> (r: String)
    ensures
        r@ == anthropic_body_spec(
            config.model@,
            config.max_tokens as nat,
            config.temperature_milli as nat,
            config.system_prompt@,
            transcript(config.system_prompt@, false, exchanges@, prompt@, Role::Assistant),
        ),
{
    let msgs = anthropic_messages(config, exchanges, prompt);
    let mut out = String::new();
    out.append("{\"model\":");
    push_json_string(&mut out, config.model.as_str());
    out.append(",\"max_tokens\":");
    push_dec(&mut out, config.max_tokens);
    out.append(",\"temperature\":");
    push_milli(&mut out, config.temperature_milli);
    out.append(",\"stream\":true,\"system\":");
    push_json_string(&mut out, config.system_prompt.as_str());
    out.append(",\"messages\":[");
    push_chat_list(&mut out, &msgs);
    out.append("]}");
    assert(out@ =~= anthropic_body_spec(
        config.model@,
        config.max_tokens as nat,
        config.temperature_milli as nat,
        config.system_prompt@,
        msgs_view(msgs@),
    ));
    out
}

/// Renders the Google request body for this configuration.
pub fn build_google_request_body(config: &Config, exchanges: &Vec<Exchange>, prompt: &str) -> (r: String)
    ensures
        r@ == google_body_spec(
            config.max_tokens as nat,
            config.temperature_milli as nat,
            config.system_prompt@,
            transcript(config.system_prompt@, false, exchanges@, prompt@, Role::Model),
        ),
{
    let msgs = google_contents(config, exchanges, prompt);
    let mut out = String::new();
    out.append("{\"generation_config\":{\"temperature\":");
    push_milli(&mut out, config.temperature_milli);
    out.append(",\"max_output_tokens\":");
    push_dec(&mut out, config.max_tokens);
    out.append("},\"system_instruction\":{\"parts\":[{\"text\":");
    push_json_string(&mut out, config.system_prompt.as_str());
    out.append("}]},\"safety_settings\":");
    out.append("[{\"category\":\"HARM_CATEGORY_SEXUALLY_EXPLICIT\",\"threshold\":\"BLOCK_NONE\"},{\"category\":\"HARM_CATEGORY_HATE_SPEECH\",\"threshold\":\"BLOCK_NONE\"},{\"category\":\"HARM_CATEGORY_HARASSMENT\",\"threshold\":\"BLOCK_NONE\"},{\"category\":\"HARM_CATEGORY_DANGEROUS_CONTENT\",\"threshold\":\"BLOCK_NONE\"}]");
    out.append(",\"contents\":[");
    push_google_list(&mut out, &msgs);
    out.append("]}");
    assert(out@ =~= google_body_spec(
        config.max_tokens as nat,
        config.temperature_milli as nat,
        config.system_prompt@,
        msgs_view(msgs@),
    ));
    out
}


/// A fully-formed provider request: endpoint URL, header list, JSON body,
/// and whether the response is to arrive incrementally.
#[derive(Clone, Debug)]
pub struct HttpRequest {
    pub url: String,
    pub headers: Vec<(String, String)>,
    pub body: String,
    pub streaming: bool,
}

/// Whether a character may appear in an HTTP header value: horizontal tab
/// or anything that is not a control character or delete. Characters past
/// the ASCII range are carried as UTF-8 bytes at or above 0x80, which the
/// wire accepts, so the check is exact character by character.
pub open spec fn header_char_ok(c: char) -> bool {
    c == '\t' || (32 <= c as u32 && c as u32 != 127)
}

/// Whether a whole string is acceptable as an HTTP header value.
pub open spec fn header_value_ok(s: Seq<char>) -> bool {
    forall|i: int| 0 <= i < s.len() ==> header_char_ok(s[i])
}

/// Checks a credential for malformed header bytes before it is placed on
/// the wire.
pub fn check_header_value(s: &str) -> (r: bool)
    ensures
        r == header_value_ok(s@),
{
    let len = s.unicode_len();
    let mut i: usize = 0;
    while i < len
        invariant
            i <= len,
            len == s@.len(),
            forall|j: int| 0 <= j < i ==> header_char_ok(s@[j]),
        decreases len - i,
    {
        let c = s.get_char(i);
        let code = c as u32;
        if !(c == '\t' || (32 <= code && code != 127)) {
            assert(!header_char_ok(s@[i as int]));
            return false;
        }
        i += 1;
    }
    true
}

/// What a successfully built request for `key` looks like, per provider:
/// endpoint, auth headers, rendered body and delivery mode.
pub open spec fn built_request(
    req: HttpRequest,
    key: APIKey,
    config: Config,
    h: Seq<Exchange>,
    prompt: Seq<char>,
) -> bool {
    match key.provider {
        Provider::OpenAI { base_url } => {
            &&& req.url@ == base_url@ + "/chat/completions"@
            &&& req.headers@.len() == 2
            &&& req.headers@[0].0@ == "Content-Type"@
            &&& req.headers@[0].1@ == "application/json"@
            &&& req.headers@[1].0@ == "Authorization"@
            &&& req.headers@[1].1@ == "Bearer "@ + key.key@
            &&& req.body@ == openai_body_spec(
                config.model@,
                config.max_tokens as nat,
                config.temperature_milli as nat,
                !starts_with_spec(config.model@, "o1"@),
                transcript(
                    config.system_prompt@,
                    config.system_prompt@.len() > 0,
                    h,
                    prompt,
                    Role::Assistant,
                ),
            )
            &&& req.streaming == !starts_with_spec(config.model@, "o1"@)
        },
        Provider::Anthropic => {
            &&& req.url@ == "https://api.anthropic.com/v1/messages"@
            &&& req.headers@.len() == 3
            &&& req.headers@[0].0@ == "Content-Type"@
            &&& req.headers@[0].1@ == "application/json"@
            &&& req.headers@[1].0@ == "x-api-key"@
            &&& req.headers@[1].1@ == key.key@
            &&& req.headers@[2].0@ == "anthropic-version"@
            &&& req.headers@[2].1@ == "2023-06-01"@
            &&& req.body@ == anthropic_body_spec(
                config.model@,
                config.max_tokens as nat,
                config.temperature_milli as nat,
                config.system_prompt@,
                transcript(config.system_prompt@, false, h, prompt, Role::Assistant),
            )
            &&& req.streaming
        },
        Provider::Google => {
            &&& req.url@ == "https://generativelanguage.googleapis.com/v1beta/models/"@
                + config.model@ + ":streamGenerateContent"@
            &&& req.headers@.len() == 2
            &&& req.headers@[0].0@ == "Content-Type"@
            &&& req.headers@[0].1@ == "application/json"@
            &&& req.headers@[1].0@ == "x-goog-api-key"@
            &&& req.headers@[1].1@ == key.key@
            &&& req.body@ == google_body_spec(
                config.max_tokens as nat,
                config.temperature_milli as nat,
                config.system_prompt@,
                transcript(config.system_prompt@, false, h, prompt, Role::Model),
            )
            &&& req.streaming
        },
    }
}

/// Assembles the provider-specific request for a chosen credential. Fails
/// only when the credential cannot be encoded as a header value.
pub fn build_request(
    api_key: &APIKey,
    config: &Config,
    exchanges: &Vec<Exchange>,
    prompt: &str,
) -> (r: Result<HttpRequest, FetchError>)
    ensures
        header_value_ok(api_key.key@) ==> r is Ok,
        !header_value_ok(api_key.key@) ==> (r matches Err(e)
            && e.kind == FetchErrorKind::RequestConstruction
            && e.message@ == "failed to parse header value"@),
        r matches Ok(req) ==> built_request(req, *api_key, *config, exchanges@, prompt@),
{
    if !check_header_value(api_key.key.as_str()) {
        return Err(FetchError {
            kind: FetchErrorKind::RequestConstruction,
            message: String::from_str("failed to parse header value"),
        });
    }
    let mut headers: Vec<(String, String)> = Vec::new();
    headers.push((String::from_str("Content-Type"), String::from_str("application/json")));
    match &api_key.provider {
        Provider::OpenAI { base_url } => {
            headers.push((
                String::from_str("Authorization"),
                String::from_str("Bearer ").concat(api_key.key.as_str()),
            ));
            let url = base_url.clone().concat("/chat/completions");
            let streaming = model_streams(config.model.as_str());
            let body = build_openai_request_body(config, exchanges, prompt);
            Ok(HttpRequest { url, headers, body, streaming })
        },
        Provider::Anthropic => {
            headers.push((String::from_str("x-api-key"), api_key.key.clone()));
            headers.push((String::from_str("anthropic-version"), String::from_str("2023-06-01")));
            let url = String::from_str("https://api.anthropic.com/v1/messages");
            let body = build_anthropic_request_body(config, exchanges, prompt);
            Ok(HttpRequest { url, headers, body, streaming: true })
        },
        Provider::Google => {
            headers.push((String::from_str("x-goog-api-key"), api_key.key.clone()));
            let url = String::from_str("https://generativelanguage.googleapis.com/v1beta/models/")
                .concat(config.model.as_str())
                .concat(":streamGenerateContent");
            let body = build_google_request_body(config, exchanges, prompt);
            Ok(HttpRequest { url, headers, body, streaming: true })
        },
    }
}

/// Resolves the credential and assembles the request in one step: the
/// entry point a caller uses to start a completion. Configuration problems
/// and header problems surface as their distinct error kinds.
pub fn plan_request(
    config: &Config,
    exchanges: &Vec<Exchange>,
    prompt: &str,
) -> (r: Result<(APIKey, HttpRequest), FetchError>)
    ensures
        match config.api_key {
            None => r matches Err(e) && e.kind == FetchErrorKind::Configuration
                && e.message@ == "No API key selected."@,
            Some(i) => {
                if i >= config.api_keys@.len() {
                    r matches Err(e) && e.kind == FetchErrorKind::Configuration
                        && e.message@ == "Invalid selection."@
                } else if !header_value_ok(config.api_keys@[i as int].key@) {
                    r matches Err(e) && e.kind == FetchErrorKind::RequestConstruction
                        && e.message@ == "failed to parse header value"@
                } else {
                    r matches Ok(p) && p.0 == config.api_keys@[i as int]
                        && built_request(p.1, config.api_keys@[i as int], *config, exchanges@, prompt@)
                }
            },
        },
{
    let api_key = match select_api_key(config) {
        Ok(k) => k.clone(),
        Err(e) => {
            return Err(e);
        },
    };
    match build_request(&api_key, config, exchanges, prompt) {
        Ok(req) => Ok((api_key, req)),
        Err(e) => Err(e),
    }
}

} // verus!
