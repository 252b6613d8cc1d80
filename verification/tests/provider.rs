use translator::provider::{
    completion_request, Backend, ChatMessage, CompletionRequest, RequestBody, Task,
    CHAT_TEMPERATURE_TENTHS, REQUEST_TIMEOUT_SECS,
};

#[test]
fn the_provider_name_selects_the_backend() {
    assert_eq!(Backend::for_provider("ollama"), Backend::LineDelimited);
    assert_eq!(Backend::for_provider("lmstudio"), Backend::EventStream);
    assert_eq!(Backend::for_provider("openai"), Backend::EventStream);
    assert_eq!(Backend::for_provider("Ollama"), Backend::EventStream);
    assert_eq!(Backend::for_provider(""), Backend::EventStream);
}

#[test]
fn each_backend_has_its_endpoint() {
    assert_eq!(
        Backend::LineDelimited.completion_url("http://localhost:11434"),
        "http://localhost:11434/api/generate"
    );
    assert_eq!(
        Backend::EventStream.completion_url("http://localhost:1234"),
        "http://localhost:1234/v1/chat/completions"
    );
    assert_eq!(Backend::EventStream.completion_url(""), "/v1/chat/completions");
}

#[test]
fn the_line_delimited_request_carries_the_prompt_alone() {
    let request = completion_request(
        Task::Translate,
        Backend::LineDelimited,
        "http://h",
        "llama3",
        "the prompt".to_string(),
    );
    assert_eq!(
        request,
        CompletionRequest {
            url: "http://h/api/generate".to_string(),
            body: RequestBody::Generate {
                model: "llama3".to_string(),
                prompt: "the prompt".to_string(),
                stream: true,
            },
        }
    );
}

#[test]
fn the_chat_request_opens_with_the_role_of_the_task() {
    let request = completion_request(
        Task::Translate,
        Backend::EventStream,
        "http://h",
        "gpt",
        "the prompt".to_string(),
    );
    assert_eq!(
        request,
        CompletionRequest {
            url: "http://h/v1/chat/completions".to_string(),
            body: RequestBody::Chat {
                model: "gpt".to_string(),
                messages: vec![
                    ChatMessage {
                        role: "system".to_string(),
                        content: "You are a professional translator. Only output the translated text, nothing else.".to_string(),
                    },
                    ChatMessage { role: "user".to_string(), content: "the prompt".to_string() },
                ],
                temperature_tenths: 3,
                stream: true,
            },
        }
    );
    let request = completion_request(
        Task::Explain,
        Backend::EventStream,
        "http://h",
        "gpt",
        "the prompt".to_string(),
    );
    match request.body {
        RequestBody::Chat { messages, .. } => {
            assert_eq!(messages.len(), 2);
            assert_eq!(
                messages[0].content,
                "You are a language expert providing vocabulary and slang explanations. Be concise and practical."
            );
        }
        RequestBody::Generate { .. } => panic!("a chat body was expected"),
    }
}

#[test]
fn the_constants_of_a_request() {
    assert_eq!(CHAT_TEMPERATURE_TENTHS, 3);
    assert_eq!(REQUEST_TIMEOUT_SECS, 120);
    assert_eq!(Task::Translate.chunk_event(), "translation-chunk");
    assert_eq!(Task::Explain.chunk_event(), "explanation-chunk");
    assert_eq!(Task::Translate.preamble(), "You are a professional translator. Only output the translated text, nothing else.");
}
