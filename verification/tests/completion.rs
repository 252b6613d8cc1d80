use translator::completion::{
    check_status, decimal_chars, explain_response, translate_response, Completion,
    CompletionAction, CompletionError, CompletionEvent, Phase, TransportStage,
};
use translator::decoder::StreamDelta;
use translator::provider::{
    Backend, ExplainRequest, RequestBody, Task, TranslateRequest,
};

fn delta(text: &str, is_final: bool) -> StreamDelta {
    StreamDelta { text_fragment: text.to_string(), is_final }
}

fn translate_request(provider: &str) -> TranslateRequest {
    TranslateRequest {
        text: "Guten Morgen".to_string(),
        source_lang: "auto".to_string(),
        target_lang: "French".to_string(),
        provider: provider.to_string(),
        endpoint: "http://localhost:11434".to_string(),
        model: "llama3".to_string(),
    }
}

fn chunk(bytes: &[u8]) -> CompletionEvent {
    CompletionEvent::Chunk { bytes: bytes.to_vec() }
}

#[test]
fn a_translation_runs_from_request_to_answer() {
    let (mut completion, outgoing) = Completion::translate(&translate_request("ollama"));
    assert_eq!(completion.task(), Task::Translate);
    assert_eq!(completion.phase(), Phase::AwaitingResponse);
    assert_eq!(outgoing.url, "http://localhost:11434/api/generate");
    match outgoing.body {
        RequestBody::Generate { model, prompt, stream } => {
            assert_eq!(model, "llama3");
            assert!(stream);
            assert_eq!(
                prompt,
                "You are a professional translator. Translate the following text from the detected language to French.\nOnly output the translated text, nothing else. Do not include explanations or notes.\n\nText to translate:\nGuten Morgen"
            );
        }
        RequestBody::Chat { .. } => panic!("a generate body was expected"),
    }

    assert!(matches!(
        completion.step(CompletionEvent::Responded { status: 200 }),
        CompletionAction::ReadBody
    ));
    assert_eq!(completion.phase(), Phase::Streaming);

    match completion.step(chunk(b"{\"response\":\" Bon\",\"done\":false}\n{\"resp")) {
        CompletionAction::Emit { deltas } => assert_eq!(deltas, vec![delta(" Bon", false)]),
        other => panic!("unexpected action {:?}", other),
    }
    match completion.step(chunk(b"onse\":\"jour\",\"done\":false}\n")) {
        CompletionAction::Emit { deltas } => assert_eq!(deltas, vec![delta("jour", false)]),
        other => panic!("unexpected action {:?}", other),
    }
    match completion.step(chunk(b"{\"response\":\"\",\"done\":true}")) {
        CompletionAction::Emit { deltas } => assert!(deltas.is_empty()),
        other => panic!("unexpected action {:?}", other),
    }
    match completion.step(CompletionEvent::Ended) {
        CompletionAction::Finish { last, text } => {
            assert_eq!(last, None);
            assert_eq!(text, "Bonjour");
            let response = translate_response(text);
            assert_eq!(response.translated_text, "Bonjour");
            assert_eq!(response.detected_lang, None);
        }
        other => panic!("unexpected action {:?}", other),
    }
    assert_eq!(completion.phase(), Phase::Closed);
}

#[test]
fn an_explanation_goes_to_the_chat_endpoint() {
    let request = ExplainRequest {
        source_text: "break a leg".to_string(),
        source_lang: "English".to_string(),
        target_lang: "Japanese".to_string(),
        provider: "lmstudio".to_string(),
        endpoint: "http://localhost:1234".to_string(),
        model: "local".to_string(),
    };
    let (mut completion, outgoing) = Completion::explain(&request);
    assert_eq!(completion.task(), Task::Explain);
    assert_eq!(outgoing.url, "http://localhost:1234/v1/chat/completions");
    match outgoing.body {
        RequestBody::Chat { model, messages, temperature_tenths, stream } => {
            assert_eq!(model, "local");
            assert_eq!(temperature_tenths, 3);
            assert!(stream);
            assert_eq!(messages.len(), 2);
            assert_eq!(messages[0].role, "system");
            assert_eq!(
                messages[0].content,
                "You are a language expert providing vocabulary and slang explanations. Be concise and practical."
            );
            assert_eq!(messages[1].role, "user");
            assert!(messages[1].content.starts_with(
                "You are a language expert. Analyze the following text written in English.\n\nText:\nbreak a leg\n"
            ));
        }
        RequestBody::Generate { .. } => panic!("a chat body was expected"),
    }
    completion.step(CompletionEvent::Responded { status: 201 });
    match completion.step(chunk(b"data: {\"choices\":[{\"delta\":{\"content\":\"## A\"}}]}\n\ndata: [DONE]\n")) {
        CompletionAction::Emit { deltas } => assert_eq!(deltas, vec![delta("## A", false)]),
        other => panic!("unexpected action {:?}", other),
    }
    match completion.step(CompletionEvent::Ended) {
        CompletionAction::Finish { last, text } => {
            assert_eq!(last, None);
            assert_eq!(explain_response(text).explanation, "## A");
        }
        other => panic!("unexpected action {:?}", other),
    }
}

#[test]
fn status_500_fails_before_anything_is_streamed() {
    let mut completion = Completion::new(Task::Translate, Backend::LineDelimited);
    match completion.step(CompletionEvent::Responded { status: 500 }) {
        CompletionAction::Fail { error } => {
            assert_eq!(error, CompletionError::HttpStatus { status: 500 });
            assert_eq!(error.message(), "API error: HTTP status 500");
        }
        other => panic!("unexpected action {:?}", other),
    }
    assert_eq!(completion.phase(), Phase::Closed);
    assert!(matches!(
        completion.step(chunk(b"{\"response\":\"late\",\"done\":false}\n")),
        CompletionAction::Ignore
    ));
    assert!(matches!(completion.step(CompletionEvent::Ended), CompletionAction::Ignore));
    assert_eq!(completion.phase(), Phase::Closed);
}

#[test]
fn only_statuses_from_200_to_299_are_accepted() {
    assert_eq!(check_status(200), Ok(()));
    assert_eq!(check_status(204), Ok(()));
    assert_eq!(check_status(299), Ok(()));
    for status in [0u16, 100, 199, 300, 301, 404, 500, 503, 65535] {
        assert_eq!(check_status(status), Err(CompletionError::HttpStatus { status }));
        let mut completion = Completion::new(Task::Explain, Backend::EventStream);
        assert!(matches!(
            completion.step(CompletionEvent::Responded { status }),
            CompletionAction::Fail { error: CompletionError::HttpStatus { status: s } } if s == status
        ));
    }
}

#[test]
fn a_request_that_cannot_be_sent_is_a_transport_error() {
    let mut completion = Completion::new(Task::Translate, Backend::LineDelimited);
    match completion.step(CompletionEvent::SendFailed { detail: "timed out".to_string() }) {
        CompletionAction::Fail { error } => {
            assert_eq!(
                error,
                CompletionError::Transport {
                    stage: TransportStage::Send,
                    detail: "timed out".to_string()
                }
            );
            assert_eq!(error.message(), "Failed to send request: timed out");
        }
        other => panic!("unexpected action {:?}", other),
    }
    assert_eq!(completion.phase(), Phase::Closed);
}

#[test]
fn a_body_that_breaks_off_is_a_transport_error() {
    let mut completion = Completion::new(Task::Translate, Backend::LineDelimited);
    completion.step(CompletionEvent::Responded { status: 200 });
    completion.step(chunk(b"{\"response\":\"Bon\",\"done\":false}\n"));
    match completion.step(CompletionEvent::ReadFailed { detail: "reset".to_string() }) {
        CompletionAction::Fail { error } => {
            assert_eq!(
                error,
                CompletionError::Transport { stage: TransportStage::Stream, detail: "reset".to_string() }
            );
            assert_eq!(error.message(), "Stream error: reset");
        }
        other => panic!("unexpected action {:?}", other),
    }
    assert!(matches!(completion.step(CompletionEvent::Ended), CompletionAction::Ignore));
}

#[test]
fn events_out_of_turn_are_ignored() {
    let mut completion = Completion::new(Task::Translate, Backend::LineDelimited);
    assert!(matches!(completion.step(chunk(b"x\n")), CompletionAction::Ignore));
    assert!(matches!(completion.step(CompletionEvent::Ended), CompletionAction::Ignore));
    assert!(matches!(
        completion.step(CompletionEvent::ReadFailed { detail: "x".to_string() }),
        CompletionAction::Ignore
    ));
    assert_eq!(completion.phase(), Phase::AwaitingResponse);
    completion.step(CompletionEvent::Responded { status: 200 });
    assert!(matches!(
        completion.step(CompletionEvent::Responded { status: 500 }),
        CompletionAction::Ignore
    ));
    assert!(matches!(
        completion.step(CompletionEvent::SendFailed { detail: "x".to_string() }),
        CompletionAction::Ignore
    ));
    assert_eq!(completion.phase(), Phase::Streaming);
}

#[test]
fn the_last_line_needs_no_line_feed() {
    let mut completion = Completion::new(Task::Translate, Backend::EventStream);
    completion.step(CompletionEvent::Responded { status: 200 });
    completion.step(chunk(b"data: {\"choices\":[{\"delta\":{\"content\":\"Bon\"}}]}\ndata: {\"choices\":[{\"delta\":{\"content\":\"jour \"}}]}"));
    match completion.step(CompletionEvent::Ended) {
        CompletionAction::Finish { last, text } => {
            assert_eq!(last, Some(delta("jour ", false)));
            assert_eq!(text, "Bonjour");
        }
        other => panic!("unexpected action {:?}", other),
    }
}

#[test]
fn error_messages_name_the_stage() {
    let error = CompletionError::Transport {
        stage: TransportStage::Client,
        detail: "no tls".to_string(),
    };
    assert_eq!(error.message(), "Failed to create HTTP client: no tls");
    assert_eq!(CompletionError::HttpStatus { status: 404 }.message(), "API error: HTTP status 404");
    assert_eq!(CompletionError::HttpStatus { status: 0 }.message(), "API error: HTTP status 0");
}

#[test]
fn numbers_are_written_in_decimal() {
    assert_eq!(decimal_chars(0), vec!['0']);
    assert_eq!(decimal_chars(7), vec!['7']);
    assert_eq!(decimal_chars(10), vec!['1', '0']);
    assert_eq!(decimal_chars(404), vec!['4', '0', '4']);
    assert_eq!(decimal_chars(65535), vec!['6', '5', '5', '3', '5']);
}
