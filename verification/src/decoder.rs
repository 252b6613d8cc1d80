//! Decoding of a streamed completion.
//!
//! A response body arrives as chunks of bytes, cut at arbitrary places. The decoder puts
//! the chunks back together, takes the body apart into lines, and reads each complete line
//! by the rules of the backend. A line that does not have the expected shape yields
//! nothing and is otherwise ignored. The answer is the concatenation of all fragments, in
//! the order of their lines, trimmed once at the very end.

use crate::json::{find_member, json_document, parse_document, JsonValue};
use crate::provider::Backend;
use crate::text::{
    append_chars, chars_of, decode_lossy, is_blank, lossy_text, spells, starts_with, string_of,
    trim, trimmed,
};
use vstd::prelude::*;
use vstd::slice::slice_subrange;

verus! {

/// One fragment of generated text, as decoded from one line of the stream.
#[derive(Clone, Debug, PartialEq, Eq)]
pub struct StreamDelta {
    /// The text to append to what was received so far.
    pub text_fragment: String,
    /// Whether the backend marked the frame that carried this fragment as its last.
    pub is_final: bool,
}

/// The mathematical content of a [`StreamDelta`].
pub struct Delta {
    pub text: Seq<char>,
    pub is_final: bool,
}

impl View for StreamDelta {
    type V = Delta;

    open spec fn view(&self) -> Delta {
        Delta { text: self.text_fragment@, is_final: self.is_final }
    }
}

/// The content of a delta that may be missing.
pub open spec fn delta_view(delta: Option<StreamDelta>) -> Option<Delta> {
    match delta {
        Some(d) => Some(d@),
        None => None,
    }
}

/// The contents of a run of deltas, in order.
pub open spec fn delta_views(deltas: Seq<StreamDelta>) -> Seq<Delta> {
    deltas.map_values(|d: StreamDelta| d@)
}

pub const RESPONSE_MEMBER: &'static str = "response";

pub const DONE_MEMBER: &'static str = "done";

pub const CHOICES_MEMBER: &'static str = "choices";

pub const DELTA_MEMBER: &'static str = "delta";

pub const CONTENT_MEMBER: &'static str = "content";

/// The prefix of an event-stream line that carries data.
pub const DATA_PREFIX: &'static str = "data: ";

/// The event-stream line that announces the end of the stream.
pub const DONE_LINE: &'static str = "data: [DONE]";

pub const LINE_FEED: u8 = 10;

pub const CARRIAGE_RETURN: u8 = 13;

/// What a frame of the line-delimited backend yields: an object with a string `response`
/// and a boolean `done` carries `response`, unless that is empty.
pub open spec fn generate_delta(doc: JsonValue) -> Option<Delta> {
    match (doc.member(RESPONSE_MEMBER@), doc.member(DONE_MEMBER@)) {
        (Some(JsonValue::Text(response)), Some(JsonValue::Bool(done))) => {
            if response@.len() > 0 {
                Some(Delta { text: response@, is_final: done })
            } else {
                None
            }
        },
        _ => None,
    }
}

/// A choice of a chat frame has the expected shape when its `delta` is an object whose
/// `content`, if there is one, is a string or `null`.
pub open spec fn choice_is_well_formed(choice: JsonValue) -> bool {
    match choice.member(DELTA_MEMBER@) {
        Some(JsonValue::Object(fields)) => match find_member(fields@, CONTENT_MEMBER@) {
            None => true,
            Some(JsonValue::Null) => true,
            Some(JsonValue::Text(_)) => true,
            _ => false,
        },
        _ => false,
    }
}

/// The text that a well-formed choice carries, if any.
pub open spec fn choice_content(choice: JsonValue) -> Option<Seq<char>> {
    match choice.member(DELTA_MEMBER@) {
        Some(delta) => match delta.member(CONTENT_MEMBER@) {
            Some(JsonValue::Text(content)) => Some(content@),
            _ => None,
        },
        None => None,
    }
}

/// What a frame of the event-stream backend yields: where `choices` is an array of
/// well-formed choices, the content of the first one, empty or not.
pub open spec fn chat_delta(doc: JsonValue) -> Option<Delta> {
    match doc.member(CHOICES_MEMBER@) {
        Some(JsonValue::Array(choices)) => {
            if choices@.len() > 0 && (forall|i: int|
                0 <= i < choices@.len() ==> choice_is_well_formed(#[trigger] choices@[i])) {
                match choice_content(choices@[0]) {
                    Some(content) => Some(Delta { text: content, is_final: false }),
                    None => None,
                }
            } else {
                None
            }
        },
        _ => None,
    }
}

/// What a parsed frame yields under the rules of `backend`.
pub open spec fn document_delta(backend: Backend, doc: JsonValue) -> Option<Delta> {
    match backend {
        Backend::LineDelimited => generate_delta(doc),
        Backend::EventStream => chat_delta(doc),
    }
}

/// The part of a line that is to be parsed as JSON, or `None` for a line that is skipped.
///
/// The line-delimited backend skips blank lines and parses every other line as it stands.
/// The event-stream backend trims the line, skips it when it is blank, is the end marker,
/// or does not begin with the data prefix, and parses what follows the prefix.
pub open spec fn line_payload(backend: Backend, line: Seq<char>) -> Option<Seq<char>> {
    match backend {
        Backend::LineDelimited => if is_blank(line) {
            None
        } else {
            Some(line)
        },
        Backend::EventStream => {
            let t = trimmed(line);
            if t.len() == 0 || t == DONE_LINE@ {
                None
            } else if DATA_PREFIX@.is_prefix_of(t) {
                Some(t.skip(DATA_PREFIX@.len() as int))
            } else {
                None
            }
        },
    }
}

/// What a payload yields once it is parsed: nothing where it is not JSON.
pub open spec fn parsed_delta(backend: Backend, parsed: Option<JsonValue>) -> Option<Delta> {
    match parsed {
        Some(doc) => document_delta(backend, doc),
        None => None,
    }
}

/// What one line of text yields.
pub open spec fn line_delta(backend: Backend, line: Seq<char>) -> Option<Delta> {
    match line_payload(backend, line) {
        Some(payload) => parsed_delta(backend, json_document(payload)),
        None => None,
    }
}

/// A line as it was cut out of the body, without the carriage return of a `\r\n` ending.
pub open spec fn without_carriage_return(line: Seq<u8>) -> Seq<u8> {
    if line.len() > 0 && line.last() == CARRIAGE_RETURN {
        line.drop_last()
    } else {
        line
    }
}

/// What one complete line of the body yields.
pub open spec fn raw_line_delta(backend: Backend, line: Seq<u8>) -> Option<Delta> {
    line_delta(backend, lossy_text(without_carriage_return(line)))
}

/// The bytes of the line that is still open after `bytes` have followed an open line that
/// began with `carry`.
pub open spec fn carry_after(carry: Seq<u8>, bytes: Seq<u8>) -> Seq<u8>
    decreases bytes.len(),
{
    if bytes.len() == 0 {
        carry
    } else if bytes.last() == LINE_FEED {
        Seq::empty()
    } else {
        carry_after(carry, bytes.drop_last()).push(bytes.last())
    }
}

/// The lines that `bytes` complete, in order and without their line feeds, where the first
/// of them began with `carry`.
pub open spec fn lines_from(carry: Seq<u8>, bytes: Seq<u8>) -> Seq<Seq<u8>>
    decreases bytes.len(),
{
    if bytes.len() == 0 {
        Seq::empty()
    } else if bytes.last() == LINE_FEED {
        lines_from(carry, bytes.drop_last()).push(carry_after(carry, bytes.drop_last()))
    } else {
        lines_from(carry, bytes.drop_last())
    }
}

/// The deltas of a run of complete lines: one for each line that yields one, in the order
/// of the lines.
pub open spec fn deltas_of_lines(backend: Backend, lines: Seq<Seq<u8>>) -> Seq<Delta>
    decreases lines.len(),
{
    if lines.len() == 0 {
        Seq::empty()
    } else {
        let before = deltas_of_lines(backend, lines.drop_last());
        match raw_line_delta(backend, lines.last()) {
            Some(delta) => before.push(delta),
            None => before,
        }
    }
}

/// What the line left open at the end of the body yields: the end of the body closes it.
pub open spec fn closing_delta(backend: Backend, rest: Seq<u8>) -> Option<Delta> {
    line_delta(backend, lossy_text(rest))
}

/// A delta that may be missing, as a run of one delta or of none.
pub open spec fn optional_delta(delta: Option<Delta>) -> Seq<Delta> {
    match delta {
        Some(d) => seq![d],
        None => Seq::empty(),
    }
}

/// All deltas of a body, however it was cut into chunks.
pub open spec fn stream_deltas(backend: Backend, body: Seq<u8>) -> Seq<Delta> {
    deltas_of_lines(backend, lines_from(Seq::empty(), body)) + optional_delta(
        closing_delta(backend, carry_after(Seq::empty(), body)),
    )
}

/// The fragments of the deltas, concatenated in order.
pub open spec fn assembled(deltas: Seq<Delta>) -> Seq<char>
    decreases deltas.len(),
{
    if deltas.len() == 0 {
        Seq::empty()
    } else {
        assembled(deltas.drop_last()) + deltas.last().text
    }
}

/// The chunks of a body, put end to end.
pub open spec fn joined(chunks: Seq<Vec<u8>>) -> Seq<u8>
    decreases chunks.len(),
{
    if chunks.len() == 0 {
        Seq::empty()
    } else {
        joined(chunks.drop_last()) + chunks.last()@
    }
}

/// Reads one parsed frame of the line-delimited backend.
pub fn read_generate_frame(doc: &JsonValue) -> (r: Option<StreamDelta>)
    ensures
        delta_view(r) == generate_delta(*doc),
{
    match (doc.get(RESPONSE_MEMBER), doc.get(DONE_MEMBER)) {
        (Some(JsonValue::Text(response)), Some(JsonValue::Bool(done))) => {
            if response.as_str().is_empty() {
                None
            } else {
                Some(StreamDelta { text_fragment: response.clone(), is_final: *done })
            }
        },
        _ => None,
    }
}

/// Whether a choice of a chat frame has the expected shape.
fn check_choice(choice: &JsonValue) -> (r: bool)
    ensures
        r == choice_is_well_formed(*choice),
{
    match choice.get(DELTA_MEMBER) {
        Some(delta) => match delta {
            JsonValue::Object(_) => match delta.get(CONTENT_MEMBER) {
                None => true,
                Some(JsonValue::Null) => true,
                Some(JsonValue::Text(_)) => true,
                _ => false,
            },
            _ => false,
        },
        None => false,
    }
}

/// The text that a choice carries, if any.
fn read_choice_content(choice: &JsonValue) -> (r: Option<String>)
    ensures
        match r {
            Some(content) => choice_content(*choice) == Some(content@),
            None => choice_content(*choice) is None,
        },
{
    match choice.get(DELTA_MEMBER) {
        Some(delta) => match delta.get(CONTENT_MEMBER) {
            Some(JsonValue::Text(content)) => Some(content.clone()),
            _ => None,
        },
        None => None,
    }
}

/// Reads one parsed frame of the event-stream backend.
pub fn read_chat_frame(doc: &JsonValue) -> (r: Option<StreamDelta>)
    ensures
        delta_view(r) == chat_delta(*doc),
{
    match doc.get(CHOICES_MEMBER) {
        Some(JsonValue::Array(choices)) => {
            if choices.len() == 0 {
                return None;
            }
            let mut i: usize = 0;
            while i < choices.len()
                invariant
                    i <= choices.len(),
                    doc.member(CHOICES_MEMBER@) == Some(JsonValue::Array(*choices)),
                    forall|j: int| 0 <= j < i ==> choice_is_well_formed(#[trigger] choices@[j]),
                decreases choices.len() - i,
            {
                if !check_choice(&choices[i]) {
                    return None;
                }
                i += 1;
            }
            match read_choice_content(&choices[0]) {
                Some(content) => Some(StreamDelta { text_fragment: content, is_final: false }),
                None => None,
            }
        },
        _ => None,
    }
}

/// Reads one parsed frame by the rules of `backend`.
pub fn read_frame(backend: Backend, doc: &JsonValue) -> (r: Option<StreamDelta>)
    ensures
        delta_view(r) == document_delta(backend, *doc),
{
    match backend {
        Backend::LineDelimited => read_generate_frame(doc),
        Backend::EventStream => read_chat_frame(doc),
    }
}

/// Cuts the JSON payload out of one line, or tells that the line is to be skipped.
pub fn frame_payload<'a>(backend: Backend, line: &'a [char]) -> (r: Option<&'a [char]>)
    ensures
        match r {
            Some(payload) => line_payload(backend, line@) == Some(payload@),
            None => line_payload(backend, line@) is None,
        },
{
    match backend {
        Backend::LineDelimited => {
            if trim(line).len() == 0 {
                None
            } else {
                Some(line)
            }
        },
        Backend::EventStream => {
            let t = trim(line);
            if t.len() == 0 || spells(t, DONE_LINE) {
                return None;
            }
            let prefix = chars_of(DATA_PREFIX);
            if starts_with(t, prefix.as_slice()) {
                let payload = slice_subrange(t, prefix.len(), t.len());
                assert(payload@ == t@.skip(DATA_PREFIX@.len() as int));
                Some(payload)
            } else {
                None
            }
        },
    }
}

/// What a payload yields once the parser has had it: `parsed` is the parser's answer.
pub fn read_parsed(backend: Backend, parsed: &Option<JsonValue>) -> (r: Option<StreamDelta>)
    ensures
        delta_view(r) == parsed_delta(backend, *parsed),
{
    match parsed {
        Some(doc) => read_frame(backend, doc),
        None => None,
    }
}

/// Decodes one line that is at hand as characters.
fn decode_chars(backend: Backend, line: &[char]) -> (r: Option<StreamDelta>)
    ensures
        delta_view(r) == line_delta(backend, line@),
{
    match frame_payload(backend, line) {
        Some(payload) => {
            let text = string_of(payload);
            let parsed = parse_document(text.as_str());
            read_parsed(backend, &parsed)
        },
        None => None,
    }
}

/// Decodes one line of text: frames it, parses the payload and reads the frame.
pub fn decode_line(backend: Backend, line: &str) -> (r: Option<StreamDelta>)
    ensures
        delta_view(r) == line_delta(backend, line@),
{
    let chars = chars_of(line);
    decode_chars(backend, chars.as_slice())
}

/// Decodes one line that is at hand as bytes.
fn decode_raw_line(backend: Backend, line: &[u8]) -> (r: Option<StreamDelta>)
    ensures
        delta_view(r) == line_delta(backend, lossy_text(line@)),
{
    let chars = decode_lossy(line);
    decode_chars(backend, chars.as_slice())
}

/// Takes the carriage return of a `\r\n` ending off a line.
fn strip_carriage_return(line: &[u8]) -> (r: &[u8])
    ensures
        r@ == without_carriage_return(line@),
{
    let n = line.len();
    if n > 0 && line[n - 1] == CARRIAGE_RETURN {
        slice_subrange(line, 0, n - 1)
    } else {
        line
    }
}

/// Feeding `a` and then `b` leaves the same open line, and completes the same lines, as
/// feeding both at once.
pub proof fn lemma_lines_compose(carry: Seq<u8>, a: Seq<u8>, b: Seq<u8>)
    ensures
        carry_after(carry, a + b) == carry_after(carry_after(carry, a), b),
        lines_from(carry, a + b) == lines_from(carry, a) + lines_from(carry_after(carry, a), b),
    decreases b.len(),
{
    if b.len() == 0 {
        assert(a + b == a);
        assert(lines_from(carry, a) + Seq::<Seq<u8>>::empty() == lines_from(carry, a));
    } else {
        lemma_lines_compose(carry, a, b.drop_last());
        assert((a + b).drop_last() == a + b.drop_last());
        assert((a + b).last() == b.last());
        if b.last() == LINE_FEED {
            assert(lines_from(carry, a + b) == (lines_from(carry, a) + lines_from(
                carry_after(carry, a),
                b.drop_last(),
            )).push(carry_after(carry_after(carry, a), b.drop_last())));
            assert(lines_from(carry, a + b) == lines_from(carry, a) + lines_from(
                carry_after(carry, a),
                b,
            ));
        }
    }
}

/// The deltas of two runs of lines, one after the other, are the deltas of the first
/// followed by those of the second.
pub proof fn lemma_deltas_concat(backend: Backend, a: Seq<Seq<u8>>, b: Seq<Seq<u8>>)
    ensures
        deltas_of_lines(backend, a + b) == deltas_of_lines(backend, a) + deltas_of_lines(
            backend,
            b,
        ),
    decreases b.len(),
{
    if b.len() == 0 {
        assert(a + b == a);
        assert(deltas_of_lines(backend, a) + Seq::<Delta>::empty() == deltas_of_lines(backend, a));
    } else {
        lemma_deltas_concat(backend, a, b.drop_last());
        assert((a + b).drop_last() == a + b.drop_last());
        assert((a + b).last() == b.last());
        let before = deltas_of_lines(backend, a) + deltas_of_lines(backend, b.drop_last());
        match raw_line_delta(backend, b.last()) {
            Some(delta) => {
                assert(before.push(delta) == deltas_of_lines(backend, a) + deltas_of_lines(
                    backend,
                    b.drop_last(),
                ).push(delta));
            },
            None => {},
        }
    }
}

/// Assembling two runs of deltas, one after the other, gives the two texts end to end.
pub proof fn lemma_assembled_concat(a: Seq<Delta>, b: Seq<Delta>)
    ensures
        assembled(a + b) == assembled(a) + assembled(b),
    decreases b.len(),
{
    if b.len() == 0 {
        assert(a + b == a);
        assert(assembled(a) + Seq::<char>::empty() == assembled(a));
    } else {
        lemma_assembled_concat(a, b.drop_last());
        assert((a + b).drop_last() == a + b.drop_last());
        assert((a + b).last() == b.last());
        assert((assembled(a) + assembled(b.drop_last())) + b.last().text == assembled(a) + (
        assembled(b.drop_last()) + b.last().text));
    }
}

/// The state of a [`StreamDecoder`], as its contracts see it.
pub struct DecoderState {
    pub backend: Backend,
    /// The bytes of the line that is still open.
    pub pending: Seq<u8>,
    /// The fragments decoded so far, concatenated.
    pub text: Seq<char>,
}

/// An incremental decoder for one response body.
pub struct StreamDecoder {
    backend: Backend,
    pending: Vec<u8>,
    text: Vec<char>,
}

/// What the end of a body yields.
#[derive(Debug)]
pub struct StreamEnd {
    /// The delta of the line that the end of the body closed, if it yields one.
    pub last: Option<StreamDelta>,
    /// The whole answer: every fragment in order, trimmed once.
    pub text: String,
}

/// A body decoded in one go.
#[derive(Debug)]
pub struct DecodedStream {
    /// Every delta of the body, in order.
    pub deltas: Vec<StreamDelta>,
    /// The whole answer: every fragment in order, trimmed once.
    pub text: String,
}

impl View for StreamDecoder {
    type V = DecoderState;

    closed spec fn view(&self) -> DecoderState {
        DecoderState { backend: self.backend, pending: self.pending@, text: self.text@ }
    }
}

impl StreamDecoder {
    /// A decoder that has seen nothing yet.
    pub fn new(backend: Backend) -> (r: Self)
        ensures
            r@ == (DecoderState { backend, pending: Seq::empty(), text: Seq::empty() }),
    {
        StreamDecoder { backend, pending: Vec::new(), text: Vec::new() }
    }

    /// The backend whose rules this decoder follows.
    pub fn backend(&self) -> (r: Backend)
        ensures
            r == self@.backend,
    {
        self.backend
    }

    /// Takes the next chunk of the body and returns the deltas of the lines that it
    /// completes, in order. A line that the chunk leaves open is kept for the next call.
    pub fn feed(&mut self, chunk: &[u8]) -> (deltas: Vec<StreamDelta>)
        ensures
            final(self)@.backend == old(self)@.backend,
            delta_views(deltas@) == deltas_of_lines(
                old(self)@.backend,
                lines_from(old(self)@.pending, chunk@),
            ),
            final(self)@.pending == carry_after(old(self)@.pending, chunk@),
            final(self)@.text == old(self)@.text + assembled(delta_views(deltas@)),
    {
        let mut deltas: Vec<StreamDelta> = Vec::new();
        let mut i: usize = 0;
        proof {
            assert(delta_views(deltas@) == Seq::<Delta>::empty());
            assert(old(self)@.text + Seq::<char>::empty() == old(self)@.text);
        }
        while i < chunk.len()
            invariant
                i <= chunk.len(),
                self@.backend == old(self)@.backend,
                delta_views(deltas@) == deltas_of_lines(
                    old(self)@.backend,
                    lines_from(old(self)@.pending, chunk@.take(i as int)),
                ),
                self@.pending == carry_after(old(self)@.pending, chunk@.take(i as int)),
                self@.text == old(self)@.text + assembled(delta_views(deltas@)),
            decreases chunk.len() - i,
        {
            let byte = chunk[i];
            let ghost seen = chunk@.take(i as int);
            let ghost next = chunk@.take(i + 1);
            let ghost before = deltas@;
            proof {
                assert(next.drop_last() == seen);
                assert(next.last() == byte);
            }
            if byte == LINE_FEED {
                let line = strip_carriage_return(self.pending.as_slice());
                proof {
                    let lines = lines_from(old(self)@.pending, next);
                    assert(lines == lines_from(old(self)@.pending, seen).push(self@.pending));
                    assert(lines.drop_last() == lines_from(old(self)@.pending, seen));
                    assert(lines.last() == self@.pending);
                }
                match decode_raw_line(self.backend, line) {
                    Some(delta) => {
                        let fragment = chars_of(delta.text_fragment.as_str());
                        append_chars(&mut self.text, fragment.as_slice());
                        deltas.push(delta);
                        proof {
                            assert(delta_views(deltas@) == delta_views(before).push(delta@));
                            assert(delta_views(deltas@).drop_last() == delta_views(before));
                            assert((old(self)@.text + assembled(delta_views(before))) + delta@.text
                                == old(self)@.text + (assembled(delta_views(before))
                                + delta@.text));
                        }
                    },
                    None => {},
                }
                self.pending.clear();
            } else {
                self.pending.push(byte);
            }
            i += 1;
        }
        proof {
            assert(chunk@.take(i as int) == chunk@);
        }
        deltas
    }

    /// Closes the body: the line that was still open is decoded as it stands, and the
    /// answer is what all fragments spell, trimmed.
    pub fn finish(self) -> (end: StreamEnd)
        ensures
            delta_view(end.last) == closing_delta(self@.backend, self@.pending),
            end.text@ == trimmed(
                self@.text + assembled(
                    optional_delta(closing_delta(self@.backend, self@.pending)),
                ),
            ),
    {
        let mut text = self.text;
        let last = decode_raw_line(self.backend, self.pending.as_slice());
        proof {
            let closing = optional_delta(closing_delta(self@.backend, self@.pending));
            assert(assembled(Seq::<Delta>::empty()) == Seq::<char>::empty());
            if closing.len() > 0 {
                assert(closing.drop_last() == Seq::<Delta>::empty());
                assert(assembled(closing) == Seq::<char>::empty() + closing.last().text);
                assert(assembled(closing) == closing.last().text);
            }
        }
        match &last {
            Some(delta) => {
                let fragment = chars_of(delta.text_fragment.as_str());
                append_chars(&mut text, fragment.as_slice());
            },
            None => {
                assert(text@ + Seq::<char>::empty() == text@);
            },
        }
        let answer = string_of(trim(text.as_slice()));
        StreamEnd { last, text: answer }
    }
}

/// Decodes a whole body that is at hand as a list of chunks. The outcome depends on the
/// bytes alone, not on where the body was cut, and the text is what the deltas spell.
pub fn decode_stream(backend: Backend, chunks: &[Vec<u8>]) -> (r: DecodedStream)
    ensures
        delta_views(r.deltas@) == stream_deltas(backend, joined(chunks@)),
        r.text@ == trimmed(assembled(delta_views(r.deltas@))),
{
    let mut decoder = StreamDecoder::new(backend);
    let mut all: Vec<StreamDelta> = Vec::new();
    let mut k: usize = 0;
    proof {
        assert(chunks@.take(0) == Seq::<Vec<u8>>::empty());
        assert(delta_views(all@) == Seq::<Delta>::empty());
    }
    while k < chunks.len()
        invariant
            k <= chunks.len(),
            decoder@.backend == backend,
            decoder@.pending == carry_after(Seq::empty(), joined(chunks@.take(k as int))),
            delta_views(all@) == deltas_of_lines(
                backend,
                lines_from(Seq::empty(), joined(chunks@.take(k as int))),
            ),
            decoder@.text == assembled(delta_views(all@)),
        decreases chunks.len() - k,
    {
        let ghost body = joined(chunks@.take(k as int));
        let ghost before = all@;
        let mut deltas = decoder.feed(chunks[k].as_slice());
        proof {
            let chunk = chunks@[k as int]@;
            assert(chunks@.take(k + 1).drop_last() == chunks@.take(k as int));
            assert(chunks@.take(k + 1).last() == chunks@[k as int]);
            assert(joined(chunks@.take(k + 1)) == body + chunk);
            lemma_lines_compose(Seq::empty(), body, chunk);
            lemma_deltas_concat(
                backend,
                lines_from(Seq::empty(), body),
                lines_from(carry_after(Seq::empty(), body), chunk),
            );
            lemma_assembled_concat(delta_views(before), delta_views(deltas@));
            assert(delta_views(before + deltas@) == delta_views(before) + delta_views(deltas@));
        }
        all.append(&mut deltas);
        k += 1;
    }
    proof {
        assert(chunks@.take(k as int) == chunks@);
    }
    let ghost complete = all@;
    let end = decoder.finish();
    let StreamEnd { last, text } = end;
    match last {
        Some(delta) => {
            all.push(delta);
            proof {
                assert(delta_views(all@) == delta_views(complete) + seq![delta@]);
                lemma_assembled_concat(delta_views(complete), seq![delta@]);
            }
        },
        None => {
            proof {
                assert(delta_views(complete) + Seq::<Delta>::empty() == delta_views(complete));
                lemma_assembled_concat(delta_views(complete), Seq::<Delta>::empty());
            }
        },
    }
    DecodedStream { deltas: all, text }
}

/// The payload of a complete line, if the line has one, is not a JSON document.
pub open spec fn is_unparsable(backend: Backend, line: Seq<u8>) -> bool {
    match line_payload(backend, lossy_text(without_carriage_return(line))) {
        Some(payload) => json_document(payload) is None,
        None => false,
    }
}

/// Bytes without a line feed complete no line; they only make the open line longer.
pub proof fn lemma_no_line_feed(carry: Seq<u8>, bytes: Seq<u8>)
    requires
        !bytes.contains(LINE_FEED),
    ensures
        lines_from(carry, bytes) == Seq::<Seq<u8>>::empty(),
        carry_after(carry, bytes) == carry + bytes,
    decreases bytes.len(),
{
    if bytes.len() == 0 {
        assert(carry + bytes == carry);
    } else {
        assert(bytes.last() == bytes[bytes.len() - 1]);
        assert forall|i: int| 0 <= i < bytes.drop_last().len() implies bytes.drop_last()[i]
            != LINE_FEED by {
            assert(bytes.drop_last()[i] == bytes[i]);
        }
        lemma_no_line_feed(carry, bytes.drop_last());
        assert((carry + bytes.drop_last()).push(bytes.last()) == carry + bytes);
    }
}

/// A line that yields no delta leaves no trace among the deltas of the lines around it.
pub proof fn lemma_skipped_line_leaves_no_trace(
    backend: Backend,
    before: Seq<Seq<u8>>,
    line: Seq<u8>,
    after: Seq<Seq<u8>>,
)
    requires
        raw_line_delta(backend, line) is None,
    ensures
        deltas_of_lines(backend, before.push(line) + after) == deltas_of_lines(backend, before)
            + deltas_of_lines(backend, after),
{
    lemma_deltas_concat(backend, before.push(line), after);
    assert(before.push(line).drop_last() == before);
}

/// A line that is not JSON, anywhere between the lines of a body, neither stops the
/// decoding nor changes what the lines around it yield, nor their order: the body decodes
/// as it would without that line.
pub proof fn lemma_unparsable_line_is_skipped(
    backend: Backend,
    head: Seq<u8>,
    line: Seq<u8>,
    tail: Seq<u8>,
)
    requires
        head.len() == 0 || head.last() == LINE_FEED,
        !line.contains(LINE_FEED),
        is_unparsable(backend, line),
    ensures
        stream_deltas(backend, head + line.push(LINE_FEED) + tail) == stream_deltas(
            backend,
            head + tail,
        ),
{
    let none = Seq::<u8>::empty();
    let full_line = line.push(LINE_FEED);
    assert(carry_after(none, head) == none);
    assert(full_line.drop_last() == line);
    lemma_no_line_feed(none, line);
    assert(none + line == line);
    assert(lines_from(none, full_line) == seq![line]);
    assert(carry_after(none, full_line) == none);
    lemma_lines_compose(none, head, full_line);
    lemma_lines_compose(none, head + full_line, tail);
    lemma_lines_compose(none, head, tail);
    let first = lines_from(none, head);
    let rest = lines_from(none, tail);
    assert(first + seq![line] == first.push(line));
    lemma_skipped_line_leaves_no_trace(backend, first, line, rest);
    lemma_deltas_concat(backend, first, rest);
    assert(lines_from(none, head + full_line + tail) == first.push(line) + rest);
    assert(carry_after(none, head + full_line + tail) == carry_after(none, tail));
    assert(lines_from(none, head + tail) == first + rest);
    assert(carry_after(none, head + tail) == carry_after(none, tail));
}

} // verus!
