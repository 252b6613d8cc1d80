//! One streamed completion from request to answer, as a state machine.
//!
//! Sending the request and reading the body are left to the caller. Each thing that
//! happens there is handed to [`Completion::step`] as an event; the step says what to do
//! next. A completion starts out waiting for the response, streams once a success status
//! has come, and is closed by the end of the body or by the first failure. Nothing is
//! emitted before a success status, and nothing after the completion is closed.

use crate::decoder::{
    assembled, carry_after, closing_delta, delta_view, delta_views, deltas_of_lines,
    lemma_assembled_concat, lines_from, optional_delta, DecoderState, Delta, StreamDecoder,
    StreamDelta, StreamEnd,
};
use crate::prompt::{
    build_explanation_prompt, build_translation_prompt, explanation_prompt, translation_prompt,
};
use crate::provider::{
    backend_for, completion_request, is_completion_request, Backend, CompletionRequest,
    ExplainRequest, ExplainResponse, Task, TranslateRequest, TranslateResponse,
};
use crate::text::{append_chars, chars_of, string_of, trimmed};
use vstd::prelude::*;

verus! {

/// The part of a request at which the transport failed.
#[derive(Clone, Copy, Debug, PartialEq, Eq, Structural)]
pub enum TransportStage {
    /// The HTTP client could not be set up.
    Client,
    /// The request could not be sent, or no response came in time.
    Send,
    /// The body could not be read to its end.
    Stream,
}

/// Why a completion failed.
#[derive(Clone, Debug, PartialEq, Eq)]
pub enum CompletionError {
    /// The network failed or the time ran out.
    Transport { stage: TransportStage, detail: String },
    /// The backend answered with a status outside 200..=299.
    HttpStatus { status: u16 },
}

pub const CLIENT_FAILURE: &'static str = "Failed to create HTTP client: ";

pub const SEND_FAILURE: &'static str = "Failed to send request: ";

pub const STREAM_FAILURE: &'static str = "Stream error: ";

pub const STATUS_FAILURE: &'static str = "API error: HTTP status ";

/// The character of a decimal digit.
pub open spec fn digit_char(d: nat) -> char
    recommends
        d < 10,
{
    ((48 + d) as u8) as char
}

/// A number in decimal, without leading zeros.
pub open spec fn decimal(n: nat) -> Seq<char>
    decreases n,
{
    if n < 10 {
        seq![digit_char(n)]
    } else {
        decimal(n / 10).push(digit_char(n % 10))
    }
}

/// How a transport failure at `stage` is introduced.
pub open spec fn transport_prefix(stage: TransportStage) -> Seq<char> {
    match stage {
        TransportStage::Client => CLIENT_FAILURE@,
        TransportStage::Send => SEND_FAILURE@,
        TransportStage::Stream => STREAM_FAILURE@,
    }
}

/// The message of a failure, as shown to the user.
pub open spec fn failure_message(failure: CompletionFailure) -> Seq<char> {
    match failure {
        CompletionFailure::Transport { stage, detail } => transport_prefix(stage) + detail,
        CompletionFailure::HttpStatus { status } => STATUS_FAILURE@ + decimal(status as nat),
    }
}

/// A status in 200..=299.
pub open spec fn is_success(status: u16) -> bool {
    200 <= status < 300
}

/// Writes a number in decimal.
pub fn decimal_chars(n: u16) -> (r: Vec<char>)
    ensures
        r@ == decimal(n as nat),
    decreases n,
{
    let digit = (48 + (n % 10) as u8) as char;
    if n < 10 {
        let mut out: Vec<char> = Vec::new();
        out.push(digit);
        out
    } else {
        let mut out = decimal_chars(n / 10);
        out.push(digit);
        out
    }
}

impl CompletionError {
    /// The message of the error, as shown to the user.
    pub fn message(&self) -> (r: String)
        ensures
            r@ == failure_message(self@),
    {
        match self {
            CompletionError::Transport { stage, detail } => {
                let mut out = match stage {
                    TransportStage::Client => chars_of(CLIENT_FAILURE),
                    TransportStage::Send => chars_of(SEND_FAILURE),
                    TransportStage::Stream => chars_of(STREAM_FAILURE),
                };
                let rest = chars_of(detail.as_str());
                append_chars(&mut out, rest.as_slice());
                string_of(out.as_slice())
            },
            CompletionError::HttpStatus { status } => {
                let mut out = chars_of(STATUS_FAILURE);
                let rest = decimal_chars(*status);
                append_chars(&mut out, rest.as_slice());
                string_of(out.as_slice())
            },
        }
    }
}

/// Accepts a response by its status: any status outside 200..=299 is an error, whatever
/// the body holds.
pub fn check_status(status: u16) -> (r: Result<(), CompletionError>)
    ensures
        r is Ok <==> is_success(status),
        r matches Err(error) ==> error == (CompletionError::HttpStatus { status }),
{
    if 200 <= status && status < 300 {
        Ok(())
    } else {
        Err(CompletionError::HttpStatus { status })
    }
}

/// Where a completion stands.
#[derive(Clone, Copy, Debug, PartialEq, Eq, Structural)]
pub enum Phase {
    /// The request is out; no status has come yet.
    AwaitingResponse,
    /// A success status has come; the body is being read.
    Streaming,
    /// The completion has ended, in an answer or in an error.
    Closed,
}

/// What happened to the request since the last step.
#[derive(Debug)]
pub enum CompletionEvent {
    /// The request could not be sent, or no response came in time.
    SendFailed { detail: String },
    /// The head of the response arrived.
    Responded { status: u16 },
    /// A chunk of the body arrived.
    Chunk { bytes: Vec<u8> },
    /// The body could not be read on, or the time ran out.
    ReadFailed { detail: String },
    /// The body ended.
    Ended,
}

/// What the caller is to do after a step.
#[derive(Debug)]
pub enum CompletionAction {
    /// Start reading the body.
    ReadBody,
    /// Announce the deltas, in order, and read on.
    Emit { deltas: Vec<StreamDelta> },
    /// Announce `last` if there is one, and return `text` as the answer.
    Finish { last: Option<StreamDelta>, text: String },
    /// Give up and report the error.
    Fail { error: CompletionError },
    /// The event does not belong here; there is nothing to do.
    Ignore,
}

/// The mathematical content of a [`CompletionError`].
pub enum CompletionFailure {
    Transport { stage: TransportStage, detail: Seq<char> },
    HttpStatus { status: u16 },
}

/// The mathematical content of a [`CompletionEvent`].
pub enum CompletionEventView {
    SendFailed { detail: Seq<char> },
    Responded { status: u16 },
    Chunk { bytes: Seq<u8> },
    ReadFailed { detail: Seq<char> },
    Ended,
}

/// The mathematical content of a [`CompletionAction`].
pub enum CompletionActionView {
    ReadBody,
    Emit { deltas: Seq<Delta> },
    Finish { last: Option<Delta>, text: Seq<char> },
    Fail { failure: CompletionFailure },
    Ignore,
}

impl View for CompletionError {
    type V = CompletionFailure;

    open spec fn view(&self) -> CompletionFailure {
        match self {
            CompletionError::Transport { stage, detail } => CompletionFailure::Transport {
                stage: *stage,
                detail: detail@,
            },
            CompletionError::HttpStatus { status } => CompletionFailure::HttpStatus {
                status: *status,
            },
        }
    }
}

impl View for CompletionEvent {
    type V = CompletionEventView;

    open spec fn view(&self) -> CompletionEventView {
        match self {
            CompletionEvent::SendFailed { detail } => CompletionEventView::SendFailed {
                detail: detail@,
            },
            CompletionEvent::Responded { status } => CompletionEventView::Responded {
                status: *status,
            },
            CompletionEvent::Chunk { bytes } => CompletionEventView::Chunk { bytes: bytes@ },
            CompletionEvent::ReadFailed { detail } => CompletionEventView::ReadFailed {
                detail: detail@,
            },
            CompletionEvent::Ended => CompletionEventView::Ended,
        }
    }
}

impl View for CompletionAction {
    type V = CompletionActionView;

    open spec fn view(&self) -> CompletionActionView {
        match self {
            CompletionAction::ReadBody => CompletionActionView::ReadBody,
            CompletionAction::Emit { deltas } => CompletionActionView::Emit {
                deltas: delta_views(deltas@),
            },
            CompletionAction::Finish { last, text } => CompletionActionView::Finish {
                last: delta_view(*last),
                text: text@,
            },
            CompletionAction::Fail { error } => CompletionActionView::Fail { failure: error@ },
            CompletionAction::Ignore => CompletionActionView::Ignore,
        }
    }
}

/// The state of a [`Completion`], as its contracts see it.
pub struct CompletionState {
    pub task: Task,
    pub phase: Phase,
    pub decoder: DecoderState,
}

/// One completion under way.
pub struct Completion {
    task: Task,
    phase: Phase,
    decoder: StreamDecoder,
}

/// The state in which every completion starts.
pub open spec fn initial_state(task: Task, backend: Backend) -> CompletionState {
    CompletionState {
        task,
        phase: Phase::AwaitingResponse,
        decoder: DecoderState { backend, pending: Seq::empty(), text: Seq::empty() },
    }
}

/// The state `state` with the completion closed.
pub open spec fn closed(state: CompletionState) -> CompletionState {
    CompletionState { phase: Phase::Closed, ..state }
}

/// The state that follows `state` on `event`, and the action that goes with it.
///
/// While the response is awaited, a status decides: a success status opens the stream,
/// any other status closes the completion with a status failure. While streaming, a chunk
/// yields the deltas of the lines it completes, and the end of the body yields the answer:
/// every fragment in order, trimmed once. A failure of the transport closes the completion
/// in either phase. Every other event is ignored and changes nothing.
pub open spec fn completion_next(state: CompletionState, event: CompletionEventView) -> (
    CompletionState,
    CompletionActionView,
) {
    let decoder = state.decoder;
    match (state.phase, event) {
        (Phase::AwaitingResponse, CompletionEventView::SendFailed { detail }) => (
            closed(state),
            CompletionActionView::Fail {
                failure: CompletionFailure::Transport { stage: TransportStage::Send, detail },
            },
        ),
        (Phase::AwaitingResponse, CompletionEventView::Responded { status }) => {
            if is_success(status) {
                (
                    CompletionState { phase: Phase::Streaming, ..state },
                    CompletionActionView::ReadBody,
                )
            } else {
                (
                    closed(state),
                    CompletionActionView::Fail {
                        failure: CompletionFailure::HttpStatus { status },
                    },
                )
            }
        },
        (Phase::Streaming, CompletionEventView::Chunk { bytes }) => {
            let deltas = deltas_of_lines(decoder.backend, lines_from(decoder.pending, bytes));
            (
                CompletionState {
                    decoder: DecoderState {
                        backend: decoder.backend,
                        pending: carry_after(decoder.pending, bytes),
                        text: decoder.text + assembled(deltas),
                    },
                    ..state
                },
                CompletionActionView::Emit { deltas },
            )
        },
        (Phase::Streaming, CompletionEventView::ReadFailed { detail }) => (
            closed(state),
            CompletionActionView::Fail {
                failure: CompletionFailure::Transport { stage: TransportStage::Stream, detail },
            },
        ),
        (Phase::Streaming, CompletionEventView::Ended) => {
            let last = closing_delta(decoder.backend, decoder.pending);
            (
                CompletionState {
                    phase: Phase::Closed,
                    decoder: DecoderState {
                        backend: decoder.backend,
                        pending: Seq::empty(),
                        text: Seq::empty(),
                    },
                    ..state
                },
                CompletionActionView::Finish {
                    last,
                    text: trimmed(decoder.text + assembled(optional_delta(last))),
                },
            )
        },
        _ => (state, CompletionActionView::Ignore),
    }
}

impl View for Completion {
    type V = CompletionState;

    closed spec fn view(&self) -> CompletionState {
        CompletionState { task: self.task, phase: self.phase, decoder: self.decoder@ }
    }
}

impl Completion {
    /// A completion whose request is about to be sent.
    pub fn new(task: Task, backend: Backend) -> (r: Self)
        ensures
            r@ == initial_state(task, backend),
    {
        Completion { task, phase: Phase::AwaitingResponse, decoder: StreamDecoder::new(backend) }
    }

    /// Starts a translation: the completion, and the request to send for it.
    pub fn translate(request: &TranslateRequest) -> (r: (Completion, CompletionRequest))
        ensures
            r.0@ == initial_state(Task::Translate, backend_for(request.provider@)),
            is_completion_request(
                r.1,
                Task::Translate,
                backend_for(request.provider@),
                request.endpoint@,
                request.model@,
                translation_prompt(request.text@, request.source_lang@, request.target_lang@),
            ),
    {
        let backend = Backend::for_provider(request.provider.as_str());
        let prompt = build_translation_prompt(
            request.text.as_str(),
            request.source_lang.as_str(),
            request.target_lang.as_str(),
        );
        let outgoing = completion_request(
            Task::Translate,
            backend,
            request.endpoint.as_str(),
            request.model.as_str(),
            prompt,
        );
        (Completion::new(Task::Translate, backend), outgoing)
    }

    /// Starts an explanation: the completion, and the request to send for it.
    pub fn explain(request: &ExplainRequest) -> (r: (Completion, CompletionRequest))
        ensures
            r.0@ == initial_state(Task::Explain, backend_for(request.provider@)),
            is_completion_request(
                r.1,
                Task::Explain,
                backend_for(request.provider@),
                request.endpoint@,
                request.model@,
                explanation_prompt(
                    request.source_text@,
                    request.source_lang@,
                    request.target_lang@,
                ),
            ),
    {
        let backend = Backend::for_provider(request.provider.as_str());
        let prompt = build_explanation_prompt(
            request.source_text.as_str(),
            request.source_lang.as_str(),
            request.target_lang.as_str(),
        );
        let outgoing = completion_request(
            Task::Explain,
            backend,
            request.endpoint.as_str(),
            request.model.as_str(),
            prompt,
        );
        (Completion::new(Task::Explain, backend), outgoing)
    }

    /// The task that the completion serves.
    pub fn task(&self) -> (r: Task)
        ensures
            r == self@.task,
    {
        self.task
    }

    /// Where the completion stands.
    pub fn phase(&self) -> (r: Phase)
        ensures
            r == self@.phase,
    {
        self.phase
    }

    /// Takes one event and says what to do next.
    pub fn step(&mut self, event: CompletionEvent) -> (action: CompletionAction)
        ensures
            (final(self)@, action@) == completion_next(old(self)@, event@),
    {
        match self.phase {
            Phase::AwaitingResponse => match event {
                CompletionEvent::SendFailed { detail } => {
                    self.phase = Phase::Closed;
                    CompletionAction::Fail {
                        error: CompletionError::Transport { stage: TransportStage::Send, detail },
                    }
                },
                CompletionEvent::Responded { status } => match check_status(status) {
                    Ok(_) => {
                        self.phase = Phase::Streaming;
                        CompletionAction::ReadBody
                    },
                    Err(error) => {
                        self.phase = Phase::Closed;
                        CompletionAction::Fail { error }
                    },
                },
                _ => CompletionAction::Ignore,
            },
            Phase::Streaming => match event {
                CompletionEvent::Chunk { bytes } => {
                    let deltas = self.decoder.feed(bytes.as_slice());
                    CompletionAction::Emit { deltas }
                },
                CompletionEvent::ReadFailed { detail } => {
                    self.phase = Phase::Closed;
                    CompletionAction::Fail {
                        error: CompletionError::Transport { stage: TransportStage::Stream, detail },
                    }
                },
                CompletionEvent::Ended => {
                    let mut spent = StreamDecoder::new(self.decoder.backend());
                    core::mem::swap(&mut self.decoder, &mut spent);
                    let StreamEnd { last, text } = spent.finish();
                    self.phase = Phase::Closed;
                    CompletionAction::Finish { last, text }
                },
                _ => CompletionAction::Ignore,
            },
            Phase::Closed => CompletionAction::Ignore,
        }
    }
}

/// The response of a translation whose answer is `text`. No language is ever detected.
pub fn translate_response(text: String) -> (r: TranslateResponse)
    ensures
        r.translated_text == text,
        r.detected_lang is None,
{
    TranslateResponse { translated_text: text, detected_lang: None }
}

/// The response of an explanation whose answer is `text`.
pub fn explain_response(text: String) -> (r: ExplainResponse)
    ensures
        r.explanation == text,
{
    ExplainResponse { explanation: text }
}

/// A status outside 200..=299 closes a completion that was waiting for its response, with
/// that status as the failure and without a delta.
pub proof fn lemma_failed_status_closes(state: CompletionState, status: u16)
    requires
        state.phase is AwaitingResponse,
        !is_success(status),
    ensures
        completion_next(state, CompletionEventView::Responded { status }) == (
            closed(state),
            CompletionActionView::Fail { failure: CompletionFailure::HttpStatus { status } },
        ),
{
}

/// Deltas and answers come from a streaming completion only: none before a success
/// status has come, and none once the completion is closed.
pub proof fn lemma_only_streaming_emits(state: CompletionState, event: CompletionEventView)
    requires
        !(state.phase is Streaming),
    ensures
        !(completion_next(state, event).1 is Emit),
        !(completion_next(state, event).1 is Finish),
{
}

/// A closed completion stays closed and ignores whatever comes.
pub proof fn lemma_closed_is_final(state: CompletionState, event: CompletionEventView)
    requires
        state.phase is Closed,
    ensures
        completion_next(state, event) == (state, CompletionActionView::Ignore),
{
}

/// The deltas that an action hands out.
pub open spec fn action_deltas(action: CompletionActionView) -> Seq<Delta> {
    match action {
        CompletionActionView::Emit { deltas } => deltas,
        CompletionActionView::Finish { last, text } => optional_delta(last),
        _ => Seq::empty(),
    }
}

/// Every delta that a run of events makes a completion hand out, in order.
pub open spec fn emitted(state: CompletionState, events: Seq<CompletionEventView>) -> Seq<Delta>
    decreases events.len(),
{
    if events.len() == 0 {
        Seq::empty()
    } else {
        let (next, action) = completion_next(state, events.first());
        action_deltas(action) + emitted(next, events.drop_first())
    }
}

/// The answer that a run of events ends in, if it ends in one.
pub open spec fn answer(state: CompletionState, events: Seq<CompletionEventView>) -> Option<
    Seq<char>,
>
    decreases events.len(),
{
    if events.len() == 0 {
        None
    } else {
        let (next, action) = completion_next(state, events.first());
        match action {
            CompletionActionView::Finish { last, text } => Some(text),
            _ => answer(next, events.drop_first()),
        }
    }
}

/// Whatever comes to a closed completion, it hands out nothing and gives no answer.
pub proof fn lemma_closed_run_is_silent(state: CompletionState, events: Seq<CompletionEventView>)
    requires
        state.phase is Closed,
    ensures
        emitted(state, events) == Seq::<Delta>::empty(),
        answer(state, events) is None,
    decreases events.len(),
{
    if events.len() > 0 {
        lemma_closed_run_is_silent(state, events.drop_first());
        assert(Seq::<Delta>::empty() + Seq::<Delta>::empty() == Seq::<Delta>::empty());
    }
}

/// Where a run ends in an answer, the answer is what the state held already and what the
/// run handed out, in order and trimmed once.
pub proof fn lemma_answer_continues_the_text(
    state: CompletionState,
    events: Seq<CompletionEventView>,
)
    ensures
        answer(state, events) matches Some(text) ==> text == trimmed(
            state.decoder.text + assembled(emitted(state, events)),
        ),
    decreases events.len(),
{
    if events.len() > 0 {
        let (next, action) = completion_next(state, events.first());
        let rest = events.drop_first();
        let before = state.decoder.text;
        lemma_answer_continues_the_text(next, rest);
        lemma_assembled_concat(action_deltas(action), emitted(next, rest));
        match action {
            CompletionActionView::Finish { last, text } => {
                lemma_closed_run_is_silent(next, rest);
                assert(optional_delta(last) + Seq::<Delta>::empty() == optional_delta(last));
            },
            CompletionActionView::Emit { deltas } => {
                assert((before + assembled(deltas)) + assembled(emitted(next, rest)) == before
                    + (assembled(deltas) + assembled(emitted(next, rest))));
            },
            _ => {
                assert(assembled(Seq::<Delta>::empty()) == Seq::<char>::empty());
                assert(Seq::<char>::empty() + assembled(emitted(next, rest)) == assembled(
                    emitted(next, rest),
                ));
                if next.phase is Closed {
                    lemma_closed_run_is_silent(next, rest);
                }
            },
        }
    }
}

/// The answer of a completion is what its deltas spell: all fragments that were handed
/// out, concatenated in order and trimmed once. This holds of every run of events.
pub proof fn lemma_answer_is_what_was_emitted(
    task: Task,
    backend: Backend,
    events: Seq<CompletionEventView>,
)
    ensures
        answer(initial_state(task, backend), events) matches Some(text) ==> text == trimmed(
            assembled(emitted(initial_state(task, backend), events)),
        ),
{
    let state = initial_state(task, backend);
    lemma_answer_continues_the_text(state, events);
    assert(state.decoder.text + assembled(emitted(state, events)) == assembled(
        emitted(state, events),
    ));
}

/// A run that begins with a status outside 200..=299 hands out no delta and gives no
/// answer, whatever follows.
pub proof fn lemma_failed_status_emits_nothing(
    task: Task,
    backend: Backend,
    status: u16,
    rest: Seq<CompletionEventView>,
)
    requires
        !is_success(status),
    ensures
        emitted(
            initial_state(task, backend),
            seq![CompletionEventView::Responded { status }] + rest,
        ) == Seq::<Delta>::empty(),
        answer(
            initial_state(task, backend),
            seq![CompletionEventView::Responded { status }] + rest,
        ) is None,
{
    let state = initial_state(task, backend);
    let events = seq![CompletionEventView::Responded { status }] + rest;
    assert(events.first() == CompletionEventView::Responded { status });
    assert(events.drop_first() == rest);
    lemma_closed_run_is_silent(closed(state), rest);
    assert(Seq::<Delta>::empty() + Seq::<Delta>::empty() == Seq::<Delta>::empty());
}

} // verus!
