//! Core data model: providers, credentials, configuration, conversation
//! turns, and the error taxonomy shared by the whole engine.

use vstd::prelude::*;

verus! {

/// A completion provider; the tag selects wire protocol, endpoint and auth
/// scheme.
#[derive(Debug)]
pub enum Provider {
    /// OpenAI-style chat-completions API, reachable under a configurable
    /// base URL (the completions path is appended to it).
    OpenAI { base_url: String },
    /// Anthropic messages API.
    Anthropic,
    /// Google generative-language API (chunked JSON-array streaming).
    Google,
}

impl Default for Provider {
    /// The default provider is OpenAI under its public endpoint.
    fn default() -> (r: Provider)
        ensures
            r is OpenAI,
            r matches Provider::OpenAI { base_url } && base_url@ == "https://api.openai.com/v1"@,
    {
        Provider::OpenAI { base_url: String::from_str("https://api.openai.com/v1") }
    }
}

impl Clone for Provider {
    fn clone(&self) -> (r: Provider)
        ensures
            r == *self,
    {
        match self {
            Provider::OpenAI { base_url } => Provider::OpenAI { base_url: base_url.clone() },
            Provider::Anthropic => Provider::Anthropic,
            Provider::Google => Provider::Google,
        }
    }
}

/// A named credential scoped to exactly one provider.
#[derive(Debug)]
pub struct APIKey {
    pub name: String,
    pub key: String,
    pub provider: Provider,
}

impl Clone for APIKey {
    fn clone(&self) -> (r: APIKey)
        ensures
            r == *self,
    {
        APIKey {
            name: self.name.clone(),
            key: self.key.clone(),
            provider: self.provider.clone(),
        }
    }
}

/// User configuration for one completion request.
///
/// Invariant of use (checked, never assumed): if `api_key` is set it must
/// index within `api_keys`; a violation is a configuration error, never a
/// panic.
#[derive(Clone, Debug)]
pub struct Config {
    /// Leading system/instruction message; omitted from the transcript when
    /// empty (except for Google, which always sends a system instruction).
    pub system_prompt: String,
    /// Sampling temperature in thousandths (500 stands for 0.5), so that
    /// the value carries exactly and the wire encoding is reproducible.
    pub temperature_milli: u32,
    pub max_tokens: u32,
    pub model: String,
    /// Index of the active credential in `api_keys`, if any is selected.
    pub api_key: Option<usize>,
    pub api_keys: Vec<APIKey>,
}

impl Default for Config {
    fn default() -> (r: Config)
        ensures
            r.system_prompt@ == "no yapping"@,
            r.temperature_milli == 800,
            r.max_tokens == 1024,
            r.model@ == Seq::<char>::empty(),
            r.api_key is None,
            r.api_keys@.len() == 0,
    {
        Config {
            system_prompt: String::from_str("no yapping"),
            temperature_milli: 800,
            max_tokens: 1024,
            model: String::new(),
            api_key: None,
            api_keys: Vec::new(),
        }
    }
}

/// One conversation turn: a user message and the assistant's reply.
#[derive(Clone, Debug)]
pub struct Exchange {
    pub user_message: String,
    pub assistant_message: String,
}

/// The failure taxonomy of the engine. Every failure is reported through
/// one of these kinds, so a caller can tell a settings problem from a
/// transport or protocol one.
#[derive(Clone, Copy, Debug, PartialEq, Eq, Structural)]
pub enum FetchErrorKind {
    /// No credential selected, or the selection does not index a stored key.
    Configuration,
    /// A header value could not be encoded for the wire.
    RequestConstruction,
    /// Connection failure or non-2xx upstream status.
    Transport,
    /// The provider issued an explicit error event or field mid-stream.
    Protocol,
    /// A response unit did not match the provider's expected shape.
    Decode,
}

/// An error with its kind and a verbatim, user-visible message.
#[derive(Clone, Debug, PartialEq)]
pub struct FetchError {
    pub kind: FetchErrorKind,
    pub message: String,
}

impl FetchError {
    /// The user-visible text of this error.
    pub fn message_text(&self) -> (r: &str)
        ensures
            r@ == self.message@,
    {
        self.message.as_str()
    }
}

/// Resolves the active credential from the configuration: `config.api_key`
/// must be set and index within `config.api_keys`. Either violation is a
/// distinct configuration error, never an out-of-bounds access.
pub fn select_api_key(config: &Config) -> (r: Result<&APIKey, FetchError>)
    ensures
        match config.api_key {
            Some(i) => {
                if i < config.api_keys@.len() {
                    r matches Ok(k) && *k == config.api_keys@[i as int]
                } else {
                    r matches Err(e) && e.kind == FetchErrorKind::Configuration
                        && e.message@ == "Invalid selection."@
                }
            },
            None => r matches Err(e) && e.kind == FetchErrorKind::Configuration
                && e.message@ == "No API key selected."@,
        },
{
    match config.api_key {
        None => Err(FetchError {
            kind: FetchErrorKind::Configuration,
            message: String::from_str("No API key selected."),
        }),
        Some(index) => {
            if index < config.api_keys.len() {
                Ok(&config.api_keys[index])
            } else {
                Err(FetchError {
                    kind: FetchErrorKind::Configuration,
                    message: String::from_str("Invalid selection."),
                })
            }
        },
    }
}

} // verus!
