//! The two backends a completion can be asked of, the request that goes to each, and the
//! errors a completion can end in.

use crate::text::same_text;
use vstd::prelude::*;
use vstd::string::StringExecFns;

verus! {

/// The wire protocol of a backend.
#[derive(Clone, Copy, Debug, PartialEq, Eq, Structural)]
pub enum Backend {
    /// A local daemon that answers with one JSON object per line.
    LineDelimited,
    /// An OpenAI-compatible server that answers with an event stream of `data:` lines.
    EventStream,
}

/// The two tasks a completion can serve.
#[derive(Clone, Copy, Debug, PartialEq, Eq, Structural)]
pub enum Task {
    Translate,
    Explain,
}

/// A request for a translation, as the user interface states it.
#[derive(Clone, Debug)]
pub struct TranslateRequest {
    pub text: String,
    pub source_lang: String,
    pub target_lang: String,
    pub provider: String,
    pub endpoint: String,
    pub model: String,
}

/// The outcome of a translation.
#[derive(Debug)]
pub struct TranslateResponse {
    pub translated_text: String,
    pub detected_lang: Option<String>,
}

/// A request for an explanation, as the user interface states it.
#[derive(Clone, Debug)]
pub struct ExplainRequest {
    pub source_text: String,
    pub source_lang: String,
    pub target_lang: String,
    pub provider: String,
    pub endpoint: String,
    pub model: String,
}

/// The outcome of an explanation.
#[derive(Debug)]
pub struct ExplainResponse {
    pub explanation: String,
}

/// One message of a chat request.
#[derive(Clone, Debug, PartialEq, Eq)]
pub struct ChatMessage {
    pub role: String,
    pub content: String,
}

/// The JSON body of a completion request, field by field.
#[derive(Clone, Debug, PartialEq, Eq)]
pub enum RequestBody {
    /// `{model, prompt, stream}` for the line-delimited backend.
    Generate { model: String, prompt: String, stream: bool },
    /// `{model, messages, temperature, stream}` for the event-stream backend. The
    /// temperature is held in tenths.
    Chat { model: String, messages: Vec<ChatMessage>, temperature_tenths: u8, stream: bool },
}

/// Where a completion request goes and what it carries.
#[derive(Clone, Debug, PartialEq, Eq)]
pub struct CompletionRequest {
    pub url: String,
    pub body: RequestBody,
}

/// The provider name that selects the line-delimited backend.
pub const LINE_DELIMITED_PROVIDER: &'static str = "ollama";

pub const GENERATE_PATH: &'static str = "/api/generate";

pub const CHAT_PATH: &'static str = "/v1/chat/completions";

pub const SYSTEM_ROLE: &'static str = "system";

pub const USER_ROLE: &'static str = "user";

pub const TRANSLATOR_PREAMBLE: &'static str =
    "You are a professional translator. Only output the translated text, nothing else.";

pub const EXPLAINER_PREAMBLE: &'static str =
    "You are a language expert providing vocabulary and slang explanations. Be concise and practical.";

/// The sampling temperature of a chat request, in tenths.
pub const CHAT_TEMPERATURE_TENTHS: u8 = 3;

/// The time a request may take from start to end, in seconds.
pub const REQUEST_TIMEOUT_SECS: u64 = 120;

pub const TRANSLATION_CHUNK_EVENT: &'static str = "translation-chunk";

pub const EXPLANATION_CHUNK_EVENT: &'static str = "explanation-chunk";

/// The backend that a provider name selects.
pub open spec fn backend_for(provider: Seq<char>) -> Backend {
    if provider == LINE_DELIMITED_PROVIDER@ {
        Backend::LineDelimited
    } else {
        Backend::EventStream
    }
}

/// The path of the completion endpoint of a backend.
pub open spec fn completion_path(backend: Backend) -> Seq<char> {
    match backend {
        Backend::LineDelimited => GENERATE_PATH@,
        Backend::EventStream => CHAT_PATH@,
    }
}

/// The role instruction that opens a chat for a task.
pub open spec fn system_preamble(task: Task) -> Seq<char> {
    match task {
        Task::Translate => TRANSLATOR_PREAMBLE@,
        Task::Explain => EXPLAINER_PREAMBLE@,
    }
}

/// The name under which the deltas of a task are announced.
pub open spec fn chunk_event(task: Task) -> Seq<char> {
    match task {
        Task::Translate => TRANSLATION_CHUNK_EVENT@,
        Task::Explain => EXPLANATION_CHUNK_EVENT@,
    }
}

/// Whether a request is the one that `task` sends to `backend` at `endpoint`, for `model`
/// and `prompt`. The line-delimited backend has no channel for a role instruction: its
/// body carries the prompt alone.
pub open spec fn is_completion_request(
    request: CompletionRequest,
    task: Task,
    backend: Backend,
    endpoint: Seq<char>,
    model: Seq<char>,
    prompt: Seq<char>,
) -> bool {
    &&& request.url@ == endpoint + completion_path(backend)
    &&& match backend {
        Backend::LineDelimited => {
            &&& request.body matches RequestBody::Generate { model: m, prompt: p, stream }
            &&& m@ == model
            &&& p@ == prompt
            &&& stream
        },
        Backend::EventStream => {
            &&& request.body matches RequestBody::Chat {
                model: m,
                messages,
                temperature_tenths,
                stream,
            }
            &&& m@ == model
            &&& messages@.len() == 2
            &&& messages@[0].role@ == SYSTEM_ROLE@
            &&& messages@[0].content@ == system_preamble(task)
            &&& messages@[1].role@ == USER_ROLE@
            &&& messages@[1].content@ == prompt
            &&& temperature_tenths == CHAT_TEMPERATURE_TENTHS
            &&& stream
        },
    }
}

impl Backend {
    /// Selects the backend by the provider name of a request.
    pub fn for_provider(provider: &str) -> (r: Backend)
        ensures
            r == backend_for(provider@),
    {
        if same_text(provider, LINE_DELIMITED_PROVIDER) {
            Backend::LineDelimited
        } else {
            Backend::EventStream
        }
    }

    /// The URL of the completion endpoint under `endpoint`.
    pub fn completion_url(self, endpoint: &str) -> (r: String)
        ensures
            r@ == endpoint@ + completion_path(self),
    {
        let mut url = endpoint.to_owned();
        match self {
            Backend::LineDelimited => url.append(GENERATE_PATH),
            Backend::EventStream => url.append(CHAT_PATH),
        }
        url
    }
}

impl Task {
    /// The role instruction that opens the chat.
    pub fn preamble(self) -> (r: &'static str)
        ensures
            r@ == system_preamble(self),
    {
        match self {
            Task::Translate => TRANSLATOR_PREAMBLE,
            Task::Explain => EXPLAINER_PREAMBLE,
        }
    }

    /// The name under which the deltas are announced.
    pub fn chunk_event(self) -> (r: &'static str)
        ensures
            r@ == chunk_event(self),
    {
        match self {
            Task::Translate => TRANSLATION_CHUNK_EVENT,
            Task::Explain => EXPLANATION_CHUNK_EVENT,
        }
    }
}

/// Builds the request that `task` sends to `backend`.
pub fn completion_request(
    task: Task,
    backend: Backend,
    endpoint: &str,
    model: &str,
    prompt: String,
) -> (r: CompletionRequest)
    ensures
        is_completion_request(r, task, backend, endpoint@, model@, prompt@),
{
    let url = backend.completion_url(endpoint);
    let body = match backend {
        Backend::LineDelimited => RequestBody::Generate {
            model: model.to_owned(),
            prompt,
            stream: true,
        },
        Backend::EventStream => {
            let mut messages: Vec<ChatMessage> = Vec::new();
            messages.push(
                ChatMessage { role: SYSTEM_ROLE.to_owned(), content: task.preamble().to_owned() },
            );
            messages.push(ChatMessage { role: USER_ROLE.to_owned(), content: prompt });
            RequestBody::Chat {
                model: model.to_owned(),
                messages,
                temperature_tenths: CHAT_TEMPERATURE_TENTHS,
                stream: true,
            }
        },
    };
    CompletionRequest { url, body }
}

} // verus!
