//! Server-sent events.
//!
//! [`EventsStream`] is fed with the bytes that arrive and hands out the events that are complete.
//! An event is a run of `data:` lines that a blank line ends.
use crate::client::{
    call_model, has_token, plans_list, ClientModel, ListCall, PulseClient,
};
use crate::encode::{encode_segment, encoded};
use crate::error::{body_of, ErrorModel, PulseError};
use crate::iq::{state_path, state_path_of};
use crate::json::{
    json_from_bytes, json_from_text, json_of, read_text, single, single_value, string_value, Json,
};
use crate::response::{
    body_from_bytes, error_model, header_seconds, is_success, opt_header, parse_retry_after,
    read_body, success, translate_error, BodyModel, ResponseBody,
};
use crate::retry::Method;
use crate::text::{
    chars_of, decimal, decimal_text, lemma_last_bytes, slice_chars, string_of,
};
use bytes::BytesMut;
use serde_json::Value;
use vstd::prelude::*;
use vstd::utf8::*;

verus! {

// ----- trusted: bytes --------------------------------------------------------------------------

/// Declares `bytes::BytesMut`.
#[verifier::external_type_specification]
#[verifier::external_body]
pub struct ExBytesMut(bytes::BytesMut);

/// The bytes that a `BytesMut` holds.
pub uninterp spec fn bytes_of(b: BytesMut) -> Seq<u8>;

/// `BytesMut::with_capacity` makes a buffer without bytes.
pub assume_specification[ BytesMut::with_capacity ](capacity: usize) -> (r: BytesMut)
    requires
        capacity <= isize::MAX,
    ensures
        bytes_of(r) == Seq::<u8>::empty(),
;

/// How many bytes a buffer may hold. It grows by doubling, and keeps room for as many bytes as were
/// taken from its front; within this bound no allocation exceeds `isize::MAX`.
pub open spec fn max_buffer() -> int {
    isize::MAX as int / 4
}

/// `BytesMut::extend_from_slice` appends bytes. It panics where an allocation would exceed
/// `isize::MAX`, which a buffer within its bound never needs.
pub assume_specification[ BytesMut::extend_from_slice ](b: &mut BytesMut, extend: &[u8])
    requires
        bytes_of(*old(b)).len() + extend@.len() <= max_buffer(),
    ensures
        bytes_of(*final(b)) == bytes_of(*old(b)) + extend@,
;

/// `BytesMut::split_to` takes the first `at` bytes out of the buffer.
pub assume_specification[ BytesMut::split_to ](b: &mut BytesMut, at: usize) -> (r: BytesMut)
    requires
        at <= bytes_of(*old(b)).len(),
    ensures
        bytes_of(r) == bytes_of(*old(b)).take(at as int),
        bytes_of(*final(b)) == bytes_of(*old(b)).skip(at as int),
;

/// `BytesMut::as_ref` gives the bytes that the buffer holds.
#[verifier::external_body]
fn buffered(b: &BytesMut) -> (r: &[u8])
    ensures
        r@ == bytes_of(*b),
{
    b.as_ref()
}

// ----- the lines of a stream -------------------------------------------------------------------

/// The byte that ends a line.
pub open spec fn newline() -> u8 {
    10u8
}

/// A line, which is given with its final newline, without that newline and a carriage return before
/// it.
pub open spec fn line_body(line: Seq<u8>) -> Seq<u8> {
    if line.len() >= 2 && line[line.len() - 2] == 13 {
        line.take(line.len() - 2)
    } else {
        line.take(line.len() - 1)
    }
}

/// What a line means.
pub enum Line {
    /// The end of an event.
    Boundary,
    /// One line of the payload of an event.
    Data(Seq<char>),
    /// A comment, a field that is not surfaced, or bytes that are no text.
    Other,
}

/// The value of a field without the one space that may lead it.
pub open spec fn field_value(rest: Seq<char>) -> Seq<char> {
    if rest.len() > 0 && rest[0] == ' ' {
        rest.drop_first()
    } else {
        rest
    }
}

/// What the text of a line means.
pub open spec fn text_kind(text: Seq<char>) -> Line {
    if text.len() == 0 {
        Line::Boundary
    } else if text[0] == ':' {
        Line::Other
    } else if text.len() >= 5 && text.take(5) == "data:"@ {
        Line::Data(field_value(text.skip(5)))
    } else {
        Line::Other
    }
}

/// What a line means, which is given with its final newline.
pub open spec fn line_kind(line: Seq<u8>) -> Line {
    if valid_utf8(line_body(line)) {
        text_kind(decode_utf8(line_body(line)))
    } else {
        Line::Other
    }
}

/// Lines joined by newlines.
pub open spec fn join_lines(lines: Seq<Seq<char>>) -> Seq<char>
    decreases lines.len(),
{
    if lines.len() == 0 {
        Seq::empty()
    } else if lines.len() == 1 {
        lines[0]
    } else {
        join_lines(lines.drop_last()).push('\n') + lines.last()
    }
}

/// What is left of a stream, and the payload that was taken from it, if any.
pub struct Taken {
    pub payload: Option<Seq<char>>,
    pub buffer: Seq<u8>,
    pub lines: Seq<Seq<char>>,
}

/// Takes lines from the buffer up to the end of the first event that has a payload. `lines` are the
/// data lines that were taken before.
pub open spec fn next_payload(buffer: Seq<u8>, lines: Seq<Seq<char>>) -> Taken
    decreases buffer.len(),
{
    match buffer.index_of_first(newline()) {
        None => Taken { payload: None, buffer, lines },
        Some(k) => {
            proof {
                buffer.index_of_first_ensures(newline());
            }
            let rest = buffer.skip(k + 1);
            match line_kind(buffer.take(k + 1)) {
                Line::Boundary => if lines.len() > 0 {
                    Taken { payload: Some(join_lines(lines)), buffer: rest, lines: Seq::empty() }
                } else {
                    next_payload(rest, lines)
                },
                Line::Data(text) => next_payload(rest, lines.push(text)),
                Line::Other => next_payload(rest, lines),
            }
        },
    }
}

/// The event that a payload stands for, given what reading it as JSON gave: that document, or
/// `{"data": payload}` where it is no JSON.
pub open spec fn event_of(payload: Seq<char>, read: Result<Json, Seq<char>>) -> Json {
    match read {
        Ok(doc) => doc,
        Err(_) => single("data"@, Json::Str(payload)),
    }
}

/// The event that a payload stands for, given what reading it as JSON gave.
pub fn event_value(payload: String, read: Result<Value, String>) -> (r: Value)
    ensures
        match read {
            Ok(v) => json_of(r) == event_of(payload@, Ok(json_of(v))),
            Err(e) => json_of(r) == event_of(payload@, Err(e@)),
        },
{
    match read {
        Ok(v) => v,
        Err(_) => single_value("data", string_value(payload)),
    }
}

// ----- the stream ------------------------------------------------------------------------------

/// The mathematical model of an [`EventsStream`].
pub struct StreamModel {
    /// The bytes that arrived and were not taken yet.
    pub buffer: Seq<u8>,
    /// The data lines of the event that is not complete yet.
    pub lines: Seq<Seq<char>>,
    /// Whether the stream has ended.
    pub done: bool,
}

/// What can arrive on a stream.
#[derive(Debug)]
pub enum StreamInput {
    /// Bytes.
    Chunk(Vec<u8>),
    /// The end of the connection.
    End,
    /// A failure of the connection, by its description.
    Failed(String),
}

/// What a stream has to say when it is asked for the next event.
#[derive(Debug)]
pub enum StreamStep {
    /// An event.
    Event(Value),
    /// No event is complete: more input is needed.
    NeedInput,
    /// The stream has ended.
    Ended,
}

/// The mathematical model of a [`StreamInput`].
pub enum InputModel {
    Chunk(Seq<u8>),
    End,
    Failed(Seq<char>),
}

impl View for StreamInput {
    type V = InputModel;

    open spec fn view(&self) -> InputModel {
        match *self {
            StreamInput::Chunk(chunk) => InputModel::Chunk(chunk@),
            StreamInput::End => InputModel::End,
            StreamInput::Failed(text) => InputModel::Failed(text@),
        }
    }
}

/// The mathematical model of a [`StreamStep`].
pub enum StepModel {
    Event(Json),
    NeedInput,
    Ended,
}

impl View for StreamStep {
    type V = StepModel;

    open spec fn view(&self) -> StepModel {
        match *self {
            StreamStep::Event(v) => StepModel::Event(json_of(v)),
            StreamStep::NeedInput => StepModel::NeedInput,
            StreamStep::Ended => StepModel::Ended,
        }
    }
}

/// A stream that nothing has arrived on yet.
pub open spec fn new_stream() -> StreamModel {
    StreamModel { buffer: Seq::empty(), lines: Seq::empty(), done: false }
}

/// The event that a payload stands for.
pub open spec fn event_in(payload: Seq<char>) -> Json {
    event_of(payload, json_from_text(payload))
}

/// What a stream says when it is asked for the next event. An ended stream yields nothing more.
pub open spec fn step_of(m: StreamModel) -> StepModel {
    if m.done {
        StepModel::Ended
    } else {
        match next_payload(m.buffer, m.lines).payload {
            Some(p) => StepModel::Event(event_in(p)),
            None => StepModel::NeedInput,
        }
    }
}

/// The stream after it was asked for the next event.
pub open spec fn after_step(m: StreamModel) -> StreamModel {
    if m.done {
        m
    } else {
        let taken = next_payload(m.buffer, m.lines);
        StreamModel { buffer: taken.buffer, lines: taken.lines, done: false }
    }
}

/// The stream after something arrived. A chunk joins the buffer; the end or a failure ends it.
pub open spec fn after_input(m: StreamModel, input: InputModel) -> StreamModel {
    match input {
        InputModel::Chunk(chunk) => StreamModel { buffer: m.buffer + chunk, ..m },
        _ => StreamModel { done: true, ..m },
    }
}

/// The texts of a sequence of strings.
pub open spec fn texts(strings: Seq<String>) -> Seq<Seq<char>> {
    strings.map_values(|s: String| s@)
}

/// A stream of events over bytes that arrive in chunks.
pub struct EventsStream {
    buffer: BytesMut,
    data_lines: Vec<String>,
    done: bool,
}

impl View for EventsStream {
    type V = StreamModel;

    closed spec fn view(&self) -> StreamModel {
        StreamModel {
            buffer: bytes_of(self.buffer),
            lines: texts(self.data_lines@),
            done: self.done,
        }
    }
}

/// The index of the first newline.
fn find_newline(bytes: &[u8]) -> (r: Option<usize>)
    ensures
        match r {
            Some(k) => bytes@.index_of_first(newline()) == Some(k as int) && k < bytes@.len() && k
                < usize::MAX,
            None => bytes@.index_of_first(newline()) is None,
        },
{
    proof {
        bytes@.index_of_first_ensures(newline());
    }
    let mut i: usize = 0;
    while i < bytes.len()
        invariant
            i <= bytes@.len(),
            forall|j: int| 0 <= j < i ==> bytes@[j] != newline(),
        decreases bytes@.len() - i,
    {
        if bytes[i] == 10 {
            proof {
                bytes@.index_of_first_ensures(newline());
                assert(bytes@.contains(newline()));
            }
            return Some(i);
        }
        i += 1;
    }
    None
}

/// What a line means, as the code decides it.
enum LineValue {
    Boundary,
    Data(String),
    Other,
}

/// Reads one line, which is given with its final newline.
fn read_line(line: &[u8]) -> (r: LineValue)
    requires
        line@.len() > 0,
    ensures
        match line_kind(line@) {
            Line::Boundary => r is Boundary,
            Line::Data(text) => r matches LineValue::Data(s) && s@ == text,
            Line::Other => r is Other,
        },
{
    let end = if line.len() >= 2 && line[line.len() - 2] == 13 {
        line.len() - 2
    } else {
        line.len() - 1
    };
    let body = vstd::slice::slice_subrange(line, 0, end);
    assert(body@ =~= line_body(line@));
    let cs: Vec<char> = match std::str::from_utf8(body) {
        Ok(text) => chars_of(text),
        Err(_) => {
            return LineValue::Other;
        },
    };
    proof {
        reveal_strlit("data:");
    }
    if cs.len() == 0 {
        return LineValue::Boundary;
    }
    if cs[0] == ':' {
        return LineValue::Other;
    }
    if cs.len() >= 5 && cs[0] == 'd' && cs[1] == 'a' && cs[2] == 't' && cs[3] == 'a' && cs[4]
        == ':' {
        assert(cs@.take(5) =~= "data:"@);
        let from: usize = if cs.len() > 5 && cs[5] == ' ' {
            6
        } else {
            5
        };
        let value = slice_chars(&cs, from, cs.len());
        assert(value@ =~= field_value(cs@.skip(5)));
        LineValue::Data(string_of(&value))
    } else {
        assert(cs@.len() >= 5 ==> cs@.take(5) != "data:"@) by {
            if cs@.len() >= 5 && cs@.take(5) == "data:"@ {
                let t = cs@.take(5);
                assert(t[0] == 'd' && t[1] == 'a' && t[2] == 't' && t[3] == 'a' && t[4] == ':');
            }
        }
        LineValue::Other
    }
}

/// Joins lines by newlines.
fn join(lines: &Vec<String>) -> (r: String)
    ensures
        r@ == join_lines(texts(lines@)),
{
    let mut out = String::new();
    let mut i: usize = 0;
    let ghost all = texts(lines@);
    assert(all.take(0) =~= Seq::empty());
    while i < lines.len()
        invariant
            i <= lines.len(),
            all == texts(lines@),
            out@ == join_lines(all.take(i as int)),
        decreases lines.len() - i,
    {
        assert(all.take(i + 1).drop_last() =~= all.take(i as int));
        assert(all.take(i + 1).last() == lines@[i as int]@);
        if i > 0 {
            out.push('\n');
        } else {
            assert(out@ + lines@[0]@ =~= lines@[0]@);
        }
        out.append(lines[i].as_str());
        i += 1;
    }
    assert(all.take(all.len() as int) =~= all);
    out
}

impl EventsStream {
    /// A stream that nothing has arrived on yet.
    pub fn new() -> (r: Self)
        ensures
            r@ == new_stream(),
    {
        let r = EventsStream {
            buffer: BytesMut::with_capacity(4096),
            data_lines: Vec::new(),
            done: false,
        };
        assert(r@.lines =~= Seq::empty());
        r
    }

    /// Takes the payload of the next complete event out of the buffer. The bytes of every line
    /// that was read are gone; `None` where no complete event is buffered yet.
    pub fn take_payload(&mut self) -> (r: Option<String>)
        ensures
            ({
                let taken = next_payload(old(self)@.buffer, old(self)@.lines);
                &&& r is Some == taken.payload is Some
                &&& r matches Some(p) ==> taken.payload == Some(p@)
                &&& final(self)@ == StreamModel {
                    buffer: taken.buffer,
                    lines: taken.lines,
                    done: old(self)@.done,
                }
            }),
    {
        let ghost goal = next_payload(self@.buffer, self@.lines);
        loop
            invariant
                self.done == old(self)@.done,
                next_payload(self@.buffer, self@.lines) == goal,
                goal == next_payload(old(self)@.buffer, old(self)@.lines),
            decreases self@.buffer.len(),
        {
            let ghost lines = self@.lines;
            let newline_pos: usize = match find_newline(buffered(&self.buffer)) {
                Some(k) => k,
                None => {
                    return None;
                },
            };
            let line = self.buffer.split_to(newline_pos + 1);
            match read_line(buffered(&line)) {
                LineValue::Boundary => {
                    if self.data_lines.len() > 0 {
                        let payload = join(&self.data_lines);
                        self.data_lines.clear();
                        assert(self@.lines =~= Seq::empty());
                        return Some(payload);
                    }
                },
                LineValue::Data(text) => {
                    self.data_lines.push(text);
                    assert(self@.lines =~= lines.push(text@));
                },
                LineValue::Other => {},
            }
        }
    }

    /// Takes the next complete event out of the buffer; `None` where there is none yet.
    pub fn try_parse_buffered_event(&mut self) -> (r: Option<Value>)
        ensures
            ({
                let taken = next_payload(old(self)@.buffer, old(self)@.lines);
                &&& match taken.payload {
                    Some(p) => r matches Some(v) && json_of(v) == event_of(p, json_from_text(p)),
                    None => r is None,
                }
                &&& final(self)@ == StreamModel {
                    buffer: taken.buffer,
                    lines: taken.lines,
                    done: old(self)@.done,
                }
            }),
    {
        match self.take_payload() {
            Some(payload) => {
                let read = read_text(payload.as_str());
                Some(event_value(payload, read))
            },
            None => None,
        }
    }

    /// The next thing to do. An ended stream yields nothing more; otherwise a complete event is
    /// taken out of the buffer, or input is asked for.
    pub fn next_step(&mut self) -> (r: StreamStep)
        ensures
            r@ == step_of(old(self)@),
            final(self)@ == after_step(old(self)@),
    {
        if self.done {
            return StreamStep::Ended;
        }
        match self.try_parse_buffered_event() {
            Some(event) => StreamStep::Event(event),
            None => StreamStep::NeedInput,
        }
    }

    /// Whether the stream has ended.
    pub fn is_done(&self) -> (r: bool)
        ensures
            r == self@.done,
    {
        self.done
    }

    /// How many data lines of an unfinished event were taken in.
    pub fn buffered_lines(&self) -> (r: usize)
        ensures
            r == self@.lines.len(),
    {
        self.data_lines.len()
    }

    /// Whether `n` more bytes can be buffered.
    pub fn has_room(&self, n: usize) -> (r: bool)
        ensures
            r == (self@.buffer.len() + n <= max_buffer()),
    {
        let held = buffered(&self.buffer).len();
        let bound = isize::MAX as usize / 4;
        n <= bound && held <= bound - n
    }

    /// Takes in what arrived. A chunk joins the buffer; the end or a failure ends the stream, and a
    /// failure is handed back as the error to report.
    pub fn on_input(&mut self, input: StreamInput) -> (r: Option<PulseError>)
        requires
            input matches StreamInput::Chunk(chunk) ==> old(self)@.buffer.len() + chunk@.len()
                <= max_buffer(),
        ensures
            final(self)@ == after_input(old(self)@, input@),
            match input@ {
                InputModel::Failed(text) => r matches Some(e) && e@ == ErrorModel::Transport(text),
                _ => r is None,
            },
    {
        match input {
            StreamInput::Chunk(chunk) => {
                self.buffer.extend_from_slice(chunk.as_slice());
                None
            },
            StreamInput::End => {
                self.done = true;
                None
            },
            StreamInput::Failed(text) => {
                self.done = true;
                Some(PulseError::Transport(text))
            },
        }
    }
}

// ----- the resource ----------------------------------------------------------------------------

/// The path of the event stream.
pub const STREAM_PATH: &'static str = "/api/pulse/events/stream";

/// The request that subscribes to the event stream, ready to be sent.
pub struct StreamCall {
    pub url: String,
    /// The value of the `Authorization` header.
    pub authorization: String,
    /// The value of the `Accept` header.
    pub accept: String,
    /// The value of the `Cache-Control` header.
    pub cache_control: String,
}

/// The document that the refusal of a stream carries. A text that is no JSON becomes
/// `{"error": text}`.
pub open spec fn refusal_body(body: BodyModel) -> Option<Json> {
    match body {
        BodyModel::Empty => None,
        BodyModel::Json(doc) => Some(doc),
        BodyModel::Text { raw, .. } => Some(single("error"@, Json::Str(raw))),
    }
}

/// The error of a stream that was refused with `status`, a `Retry-After` header and `body`.
pub fn refusal(status: u16, retry_after: Option<&str>, body: ResponseBody) -> (r: PulseError)
    ensures
        r@ == error_model(
            status,
            STREAM_PATH@,
            refusal_body(body@),
            header_seconds(opt_header(retry_after)),
        ),
{
    let document = match body {
        ResponseBody::Empty => None,
        ResponseBody::Json(v) => Some(v),
        ResponseBody::Text { raw, .. } => Some(single_value("error", string_value(raw))),
    };
    translate_error(status, STREAM_PATH, document, parse_retry_after(retry_after))
}

/// Events, live and replayed.
pub struct EventsResource<'c> {
    client: &'c PulseClient,
}

impl View for EventsResource<'_> {
    type V = ClientModel;

    closed spec fn view(&self) -> ClientModel {
        self.client@
    }
}

/// The suffix of the path that replays the changes of a key.
pub open spec fn replay_suffix(
    key: Seq<char>,
    from: Seq<char>,
    to: Seq<char>,
    limit: u32,
) -> Seq<char> {
    "/replay/"@ + encoded(key) + "?from="@ + encoded(from) + "&to="@ + encoded(to) + "&limit="@
        + decimal(limit as nat)
}

impl<'c> EventsResource<'c> {
    pub(crate) fn new(client: &'c PulseClient) -> (r: Self)
        ensures
            r@ == client@,
    {
        EventsResource { client }
    }

    /// `GET /api/pulse/events/stream`: the request that subscribes to the events. Fails without
    /// sending anything where there is no token.
    pub fn stream(&self) -> (r: Result<StreamCall, PulseError>)
        ensures
            if has_token(self@) {
                r matches Ok(call) && call.url@ == self@.base_url + "/api/pulse/events/stream"@
                    && call.authorization@ == "Bearer "@ + self@.token->0 && call.accept@
                    == "text/event-stream"@ && call.cache_control@ == "no-cache"@
            } else {
                r matches Err(e) && e@ == (ErrorModel::NoToken {
                    path: "/api/pulse/events/stream"@,
                })
            },
    {
        match self.client.bearer(STREAM_PATH) {
            Ok(token) => Ok(
                StreamCall {
                    url: self.client.url_of(STREAM_PATH),
                    authorization: "Bearer ".to_owned().concat(token.as_str()),
                    accept: "text/event-stream".to_owned(),
                    cache_control: "no-cache".to_owned(),
                },
            ),
            Err(e) => Err(e),
        }
    }

    /// The stream that the server opened, or the error that it refused it with. `retry_after` and
    /// `bytes` are the `Retry-After` header and the body of the refusal.
    pub fn open(
        &self,
        status: u16,
        retry_after: Option<&str>,
        bytes: &[u8],
    ) -> (r: Result<EventsStream, PulseError>)
        ensures
            if success(status) {
                r matches Ok(stream) && stream@ == new_stream()
            } else {
                r matches Err(e) && e@ == error_model(
                    status,
                    STREAM_PATH@,
                    refusal_body(body_from_bytes(bytes@)),
                    header_seconds(opt_header(retry_after)),
                )
            },
    {
        if is_success(status) {
            Ok(EventsStream::new())
        } else {
            Err(refusal(status, retry_after, read_body(bytes)))
        }
    }

    /// `GET /api/pulse/iq/agents/{id}/state/replay/{key}?from=..&to=..&limit=..`: the changes of one
    /// key between two instants, in order.
    pub fn replay(
        &self,
        affecting_state: &str,
        key: &str,
        from: &str,
        to: &str,
        limit: u32,
    ) -> (r: Result<ListCall, PulseError>)
        ensures
            plans_list(
                r,
                call_model(
                    self@,
                    Method::Get,
                    state_path(affecting_state@, replay_suffix(key@, from@, to@, limit)),
                    None,
                    true,
                ),
                "changes"@,
            ),
    {
        let suffix = "/replay/".to_owned().concat(encode_segment(key).as_str()).concat(
            "?from=",
        ).concat(encode_segment(from).as_str()).concat("&to=").concat(
            encode_segment(to).as_str(),
        ).concat("&limit=").concat(decimal_text(limit as u64).as_str());
        let path = state_path_of(affecting_state, suffix.as_str());
        self.client.request_list(path.as_str(), "changes")
    }
}

// ----- laws ------------------------------------------------------------------------------------

/// The payloads that a stream hands out until it needs input, and what it then holds.
pub struct Drained {
    pub payloads: Seq<Seq<char>>,
    pub buffer: Seq<u8>,
    pub lines: Seq<Seq<char>>,
}

/// Takes payloads until none is left.
pub open spec fn drain(buffer: Seq<u8>, lines: Seq<Seq<char>>) -> Drained
    decreases buffer.len(),
    via drain_decreases
{
    let taken = next_payload(buffer, lines);
    match taken.payload {
        None => Drained { payloads: Seq::empty(), buffer: taken.buffer, lines: taken.lines },
        Some(p) => {
            let rest = drain(taken.buffer, taken.lines);
            Drained { payloads: seq![p] + rest.payloads, ..rest }
        },
    }
}

#[via_fn]
proof fn drain_decreases(buffer: Seq<u8>, lines: Seq<Seq<char>>) {
    lemma_next_payload_takes(buffer, lines);
}

/// A payload takes at least the line that ends it.
proof fn lemma_next_payload_takes(buffer: Seq<u8>, lines: Seq<Seq<char>>)
    ensures
        next_payload(buffer, lines).buffer.len() <= buffer.len(),
        next_payload(buffer, lines).payload is Some ==> next_payload(buffer, lines).buffer.len()
            < buffer.len(),
    decreases buffer.len(),
{
    buffer.index_of_first_ensures(newline());
    if let Some(k) = buffer.index_of_first(newline()) {
        let rest = buffer.skip(k + 1);
        match line_kind(buffer.take(k + 1)) {
            Line::Boundary => lemma_next_payload_takes(rest, lines),
            Line::Data(text) => lemma_next_payload_takes(rest, lines.push(text)),
            Line::Other => lemma_next_payload_takes(rest, lines),
        }
    }
}

/// Draining, one line at a time.
proof fn lemma_drain_line(buffer: Seq<u8>, lines: Seq<Seq<char>>, k: int)
    requires
        buffer.index_of_first(newline()) == Some(k),
    ensures
        ({
            let rest = buffer.skip(k + 1);
            drain(buffer, lines) == match line_kind(buffer.take(k + 1)) {
                Line::Boundary => if lines.len() > 0 {
                    Drained {
                        payloads: seq![join_lines(lines)] + drain(rest, Seq::empty()).payloads,
                        ..drain(rest, Seq::empty())
                    }
                } else {
                    drain(rest, lines)
                },
                Line::Data(text) => drain(rest, lines.push(text)),
                Line::Other => drain(rest, lines),
            }
        }),
{
}

/// How the bytes are cut into chunks does not matter: the events of `a + b` are those of `a`
/// followed by those that `b` completes.
pub proof fn law_chunking_does_not_matter(a: Seq<u8>, b: Seq<u8>, lines: Seq<Seq<char>>)
    ensures
        ({
            let first = drain(a, lines);
            let second = drain(first.buffer + b, first.lines);
            drain(a + b, lines) == Drained {
                payloads: first.payloads + second.payloads,
                ..second
            }
        }),
    decreases a.len(),
{
    a.index_of_first_ensures(newline());
    (a + b).index_of_first_ensures(newline());
    match a.index_of_first(newline()) {
        None => {
            assert(drain(a, lines).payloads + drain(a + b, lines).payloads =~= drain(
                a + b,
                lines,
            ).payloads);
        },
        Some(k) => {
            let whole = a + b;
            assert(whole[k] == a[k]);
            assert(whole.contains(newline()));
            let j = whole.index_of_first(newline())->0;
            assert(j == k) by {
                if j < k {
                    assert(whole[j] == a[j]);
                }
            }
            assert(whole.take(k + 1) =~= a.take(k + 1));
            assert(whole.skip(k + 1) =~= a.skip(k + 1) + b);
            lemma_drain_line(a, lines, k);
            lemma_drain_line(whole, lines, k);
            let rest = a.skip(k + 1);
            match line_kind(a.take(k + 1)) {
                Line::Boundary => {
                    if lines.len() > 0 {
                        law_chunking_does_not_matter(rest, b, Seq::empty());
                        let first = drain(rest, Seq::empty());
                        let second = drain(first.buffer + b, first.lines);
                        assert(seq![join_lines(lines)] + (first.payloads + second.payloads) =~= (
                        seq![join_lines(lines)] + first.payloads) + second.payloads);
                    } else {
                        law_chunking_does_not_matter(rest, b, lines);
                    }
                },
                Line::Data(text) => law_chunking_does_not_matter(rest, b, lines.push(text)),
                Line::Other => law_chunking_does_not_matter(rest, b, lines),
            }
        },
    }
}

/// What polling a stream yields: events, and the failure that ends it.
pub type Item = Result<Json, ErrorModel>;

/// The items that a stream yields while the given inputs arrive: it is asked for events, and takes in
/// the next input whenever it needs one.
pub open spec fn items_yielded(m: StreamModel, inputs: Seq<InputModel>) -> Seq<Item>
    decreases inputs.len(), m.buffer.len(),
    via items_yielded_decreases
{
    match step_of(m) {
        StepModel::Ended => Seq::empty(),
        StepModel::Event(event) => seq![Ok(event)] + items_yielded(after_step(m), inputs),
        StepModel::NeedInput => if inputs.len() == 0 {
            Seq::empty()
        } else {
            let rest = items_yielded(after_input(after_step(m), inputs[0]), inputs.drop_first());
            match inputs[0] {
                InputModel::Failed(text) => seq![Err(ErrorModel::Transport(text))] + rest,
                _ => rest,
            }
        },
    }
}

#[via_fn]
proof fn items_yielded_decreases(m: StreamModel, inputs: Seq<InputModel>) {
    lemma_next_payload_takes(m.buffer, m.lines);
}

/// The items that payloads are handed out as.
pub open spec fn as_items(payloads: Seq<Seq<char>>) -> Seq<Item> {
    payloads.map_values(|p: Seq<char>| Ok::<Json, ErrorModel>(event_in(p)))
}

/// Chunks that arrive one after the other, and then the end.
pub open spec fn arrivals(chunks: Seq<Seq<u8>>) -> Seq<InputModel>
    decreases chunks.len(),
{
    if chunks.len() == 0 {
        seq![InputModel::End]
    } else {
        seq![InputModel::Chunk(chunks[0])] + arrivals(chunks.drop_first())
    }
}

/// The bytes of chunks, put together.
pub open spec fn joined(chunks: Seq<Seq<u8>>) -> Seq<u8>
    decreases chunks.len(),
{
    if chunks.len() == 0 {
        Seq::empty()
    } else {
        chunks[0] + joined(chunks.drop_first())
    }
}

/// What is left where no payload was found holds no line.
proof fn lemma_nothing_is_left(buffer: Seq<u8>, lines: Seq<Seq<char>>)
    requires
        next_payload(buffer, lines).payload is None,
    ensures
        ({
            let taken = next_payload(buffer, lines);
            next_payload(taken.buffer, taken.lines) == taken
        }),
    decreases buffer.len(),
{
    buffer.index_of_first_ensures(newline());
    if let Some(k) = buffer.index_of_first(newline()) {
        let rest = buffer.skip(k + 1);
        match line_kind(buffer.take(k + 1)) {
            Line::Boundary => lemma_nothing_is_left(rest, lines),
            Line::Data(text) => lemma_nothing_is_left(rest, lines.push(text)),
            Line::Other => lemma_nothing_is_left(rest, lines),
        }
    }
}

/// A stream first hands out what is buffered, and then goes on with what is left.
proof fn lemma_buffered_first(m: StreamModel, inputs: Seq<InputModel>)
    requires
        !m.done,
    ensures
        ({
            let drained = drain(m.buffer, m.lines);
            let left = StreamModel { buffer: drained.buffer, lines: drained.lines, done: false };
            &&& step_of(left) is NeedInput
            &&& after_step(left) == left
            &&& items_yielded(m, inputs) == as_items(drained.payloads) + items_yielded(left, inputs)
        }),
    decreases m.buffer.len(),
{
    lemma_next_payload_takes(m.buffer, m.lines);
    let taken = next_payload(m.buffer, m.lines);
    let drained = drain(m.buffer, m.lines);
    let left = StreamModel { buffer: drained.buffer, lines: drained.lines, done: false };
    match taken.payload {
        None => {
            lemma_nothing_is_left(m.buffer, m.lines);
            assert(left == after_step(m));
            assert(items_yielded(left, inputs) == items_yielded(m, inputs));
            assert(as_items(drained.payloads) =~= Seq::empty());
            assert(as_items(drained.payloads) + items_yielded(left, inputs) =~= items_yielded(
                m,
                inputs,
            ));
        },
        Some(p) => {
            let next = after_step(m);
            lemma_buffered_first(next, inputs);
            let rest = drain(taken.buffer, taken.lines);
            assert(as_items(drained.payloads) =~= seq![Ok::<Json, ErrorModel>(event_in(p))]
                + as_items(rest.payloads));
            assert(as_items(drained.payloads) + items_yielded(left, inputs) =~= items_yielded(
                m,
                inputs,
            ));
        },
    }
}

/// What a stream yields until its end is what its bytes hold.
proof fn lemma_yields_its_bytes(m: StreamModel, chunks: Seq<Seq<u8>>)
    requires
        !m.done,
    ensures
        items_yielded(m, arrivals(chunks)) == as_items(
            drain(m.buffer + joined(chunks), m.lines).payloads,
        ),
    decreases chunks.len(),
{
    let inputs = arrivals(chunks);
    let drained = drain(m.buffer, m.lines);
    let left = StreamModel { buffer: drained.buffer, lines: drained.lines, done: false };
    lemma_buffered_first(m, inputs);
    if chunks.len() == 0 {
        assert(m.buffer + joined(chunks) =~= m.buffer);
        let ended = after_input(left, InputModel::End);
        assert(items_yielded(ended, inputs.drop_first()) =~= Seq::empty());
        assert(items_yielded(left, inputs) =~= Seq::empty());
        assert(as_items(drained.payloads) + items_yielded(left, inputs) =~= as_items(
            drained.payloads,
        ));
    } else {
        let tail = chunks.drop_first();
        assert(inputs.drop_first() =~= arrivals(tail));
        let next = after_input(left, inputs[0]);
        assert(items_yielded(left, inputs) == items_yielded(next, arrivals(tail)));
        lemma_yields_its_bytes(next, tail);
        let more = chunks[0] + joined(tail);
        assert(next.buffer + joined(tail) =~= drained.buffer + more);
        law_chunking_does_not_matter(m.buffer, more, m.lines);
        let second = drain(drained.buffer + more, drained.lines);
        assert(as_items(drained.payloads + second.payloads) =~= as_items(drained.payloads)
            + as_items(second.payloads));
    }
}

/// Two new streams that receive the same bytes and then end yield the same items, however the bytes
/// were cut into chunks.
pub proof fn law_streams_yield_what_their_bytes_hold(a: Seq<Seq<u8>>, b: Seq<Seq<u8>>)
    requires
        joined(a) == joined(b),
    ensures
        items_yielded(new_stream(), arrivals(a)) == items_yielded(new_stream(), arrivals(b)),
        items_yielded(new_stream(), arrivals(a)) == as_items(
            drain(joined(a), Seq::empty()).payloads,
        ),
{
    lemma_yields_its_bytes(new_stream(), a);
    lemma_yields_its_bytes(new_stream(), b);
    assert(Seq::<u8>::empty() + joined(a) =~= joined(a));
}

/// An end is final: after the end or a failure the stream is done, and a stream that is done says so
/// whenever it is asked, and stays so whatever arrives.
pub proof fn law_end_is_final(m: StreamModel, input: InputModel, inputs: Seq<InputModel>)
    ensures
        !(input is Chunk) ==> after_input(m, input).done,
        m.done ==> {
            &&& step_of(m) is Ended
            &&& after_step(m) == m
            &&& after_input(m, input).done
            &&& items_yielded(m, inputs) == Seq::<Item>::empty()
        },
{
}

/// The bytes of data lines that no blank line follows.
pub open spec fn data_bytes(lines: Seq<Seq<char>>) -> Seq<u8>
    decreases lines.len(),
{
    if lines.len() == 0 {
        Seq::empty()
    } else {
        encode_utf8("data: "@ + lines[0]).push(newline()) + data_bytes(lines.drop_first())
    }
}

/// Data lines that no blank line follows yield nothing, however they were cut into chunks.
pub proof fn law_unfinished_event_yields_nothing(lines: Seq<Seq<char>>, chunks: Seq<Seq<u8>>)
    requires
        forall|i: int| 0 <= i < lines.len() ==> one_line(#[trigger] lines[i]),
        joined(chunks) == data_bytes(lines),
    ensures
        items_yielded(new_stream(), arrivals(chunks)) == Seq::<Item>::empty(),
{
    law_streams_yield_what_their_bytes_hold(chunks, chunks);
    lemma_unfinished_event(Seq::empty(), lines);
    assert(as_items(Seq::empty()) =~= Seq::empty());
}

proof fn lemma_unfinished_event(before: Seq<Seq<char>>, lines: Seq<Seq<char>>)
    requires
        forall|i: int| 0 <= i < lines.len() ==> one_line(#[trigger] lines[i]),
    ensures
        drain(data_bytes(lines), before).payloads == Seq::<Seq<char>>::empty(),
    decreases lines.len(),
{
    if lines.len() == 0 {
        data_bytes(lines).index_of_first_ensures(newline());
    } else {
        let line = encode_utf8("data: "@ + lines[0]);
        let tail = lines.drop_first();
        lemma_data_line(lines[0]);
        lemma_first_line(line, data_bytes(tail));
        lemma_drain_line(data_bytes(lines), before, line.len() as int);
        lemma_unfinished_event(before.push(lines[0]), tail);
    }
}

/// A stream that is refused with a body that is text and no JSON carries that text, all of it, as its
/// `error`.
pub proof fn law_refusal_text_is_the_body(status: u16, retry_after: Option<u32>, bytes: Seq<u8>)
    requires
        bytes.len() > 0,
        json_from_bytes(bytes) is Err,
        valid_utf8(bytes),
    ensures
        body_of(error_model(status, STREAM_PATH@, refusal_body(body_from_bytes(bytes)), retry_after))
            == Some(single("error"@, Json::Str(decode_utf8(bytes)))),
{
}

/// A blank line ends an event, and nothing else does.
pub proof fn law_only_a_blank_line_ends_an_event(line: Seq<u8>)
    ensures
        line_kind(line) is Boundary <==> line_body(line).len() == 0,
{
}

/// A line that is neither data nor a boundary, such as a comment, a keep-alive or bytes that are no
/// text, changes nothing.
pub proof fn law_other_lines_are_skipped(line: Seq<u8>, rest: Seq<u8>, lines: Seq<Seq<char>>)
    requires
        !line.contains(newline()),
        line_kind(line.push(newline())) is Other,
    ensures
        next_payload(line.push(newline()) + rest, lines) == next_payload(rest, lines),
{
    lemma_first_line(line, rest);
}

/// The first line of `line`, a newline and `rest` is `line`.
pub proof fn lemma_first_line(line: Seq<u8>, rest: Seq<u8>)
    requires
        !line.contains(newline()),
    ensures
        ({
            let whole = line.push(newline()) + rest;
            &&& whole.index_of_first(newline()) == Some(line.len() as int)
            &&& whole.take(line.len() as int + 1) == line.push(newline())
            &&& whole.skip(line.len() as int + 1) == rest
        }),
{
    let whole = line.push(newline()) + rest;
    whole.index_of_first_ensures(newline());
    assert(whole[line.len() as int] == newline());
    assert(whole.contains(newline()));
    let j = whole.index_of_first(newline())->0;
    assert(j == line.len()) by {
        if j < line.len() {
            assert(whole[j] == line[j]);
        }
    }
    assert(whole.take(line.len() as int + 1) =~= line.push(newline()));
    assert(whole.skip(line.len() as int + 1) =~= rest);
}

/// An ASCII byte stands in the encoding of a character only where it is that character.
proof fn lemma_scalar_bytes(c: char, b: u8)
    requires
        b < 0x80,
        c as u32 != b as u32,
    ensures
        !encode_scalar(c as u32).contains(b),
{
    let u = c as u32;
    char_is_scalar(c);
    assert(u <= 0x7f ==> (u & 0x7f) as u8 == u) by (bit_vector);
    assert(0xC0 | ((u >> 6) & 0x1F) as u8 >= 0x80) by (bit_vector);
    assert(0xE0 | ((u >> 12) & 0x0F) as u8 >= 0x80) by (bit_vector);
    assert(0xF0 | ((u >> 18) & 0x7) as u8 >= 0x80) by (bit_vector);
    assert(0x80 | (u & 0x3F) as u8 >= 0x80) by (bit_vector);
    assert(0x80 | ((u >> 6) & 0x3F) as u8 >= 0x80) by (bit_vector);
    assert(0x80 | ((u >> 12) & 0x3F) as u8 >= 0x80) by (bit_vector);
}

/// An ASCII byte stands in the encoding of a text only where the text holds that character.
proof fn lemma_text_bytes(text: Seq<char>, b: u8)
    requires
        b < 0x80,
        forall|i: int| 0 <= i < text.len() ==> (#[trigger] text[i]) as u32 != b as u32,
    ensures
        !encode_utf8(text).contains(b),
    decreases text.len(),
{
    if text.len() > 0 {
        let tail = text.drop_first();
        assert forall|i: int| 0 <= i < tail.len() implies (#[trigger] tail[i]) as u32
            != b as u32 by {
            assert(tail[i] == text[i + 1]);
        }
        lemma_text_bytes(tail, b);
        lemma_scalar_bytes(text[0], b);
        let head = encode_scalar(text[0] as u32);
        let whole = encode_utf8(text);
        assert(whole =~= head + encode_utf8(tail));
        assert forall|i: int| 0 <= i < whole.len() implies whole[i] != b by {
            if i < head.len() {
                assert(head.contains(head[i]));
            } else {
                assert(encode_utf8(tail).contains(encode_utf8(tail)[i - head.len()]));
            }
        }
    }
}

/// A text that can travel as one line: no newline in it, and no carriage return at its end.
pub open spec fn one_line(text: Seq<char>) -> bool {
    &&& forall|i: int| 0 <= i < text.len() ==> #[trigger] text[i] != '\n'
    &&& text.len() > 0 ==> text.last() != '\r'
}

/// The bytes of an event with the given data lines.
pub open spec fn event_bytes(lines: Seq<Seq<char>>) -> Seq<u8>
    decreases lines.len(),
{
    if lines.len() == 0 {
        seq![newline()]
    } else {
        encode_utf8("data: "@ + lines[0]).push(newline()) + event_bytes(lines.drop_first())
    }
}

/// A data line is read as the text that was written.
proof fn lemma_data_line(text: Seq<char>)
    requires
        one_line(text),
    ensures
        !encode_utf8("data: "@ + text).contains(newline()),
        line_kind(encode_utf8("data: "@ + text).push(newline())) == Line::Data(text),
{
    reveal_strlit("data: ");
    reveal_strlit("data:");
    let whole = "data: "@ + text;
    let bytes = encode_utf8(whole);
    assert forall|i: int| 0 <= i < whole.len() implies (#[trigger] whole[i]) as u32
        != newline() as u32 by {
        if i >= 6 {
            assert(whole[i] == text[i - 6]);
            lemma_char_is(text[i - 6]);
        }
    }
    lemma_text_bytes(whole, newline());
    lemma_last_bytes(whole);
    let last = encode_scalar(whole.last() as u32);
    assert(whole.last() != '\r');
    lemma_char_is(whole.last());
    lemma_scalar_bytes(whole.last(), 13u8);
    char_is_scalar(whole.last());
    assert(last.len() > 0);
    assert(last.contains(last.last()));
    assert(bytes.last() == last.last());
    let line = bytes.push(newline());
    assert(line[line.len() - 2] == bytes.last());
    assert(line.take(line.len() - 1) =~= bytes);
    encode_utf8_valid_utf8(whole);
    encode_utf8_decode_utf8(whole);
    assert(line_body(line) =~= bytes);
    assert(whole.take(5) =~= "data:"@);
    assert(field_value(whole.skip(5)) =~= text);
}

proof fn lemma_char_is(c: char)
    ensures
        c as u32 == 10 ==> c == '\n',
        c as u32 == 13 ==> c == '\r',
{
}

/// What a server writes as the data lines of one event comes out as one payload, those lines joined
/// by newlines, and the bytes that follow are left.
pub proof fn law_event_round_trip(lines: Seq<Seq<char>>, rest: Seq<u8>)
    requires
        lines.len() > 0,
        forall|i: int| 0 <= i < lines.len() ==> one_line(#[trigger] lines[i]),
    ensures
        next_payload(event_bytes(lines) + rest, Seq::empty()) == (Taken {
            payload: Some(join_lines(lines)),
            buffer: rest,
            lines: Seq::empty(),
        }),
{
    lemma_event_round_trip(Seq::empty(), lines, rest);
    assert(Seq::<Seq<char>>::empty() + lines =~= lines);
}

proof fn lemma_event_round_trip(before: Seq<Seq<char>>, lines: Seq<Seq<char>>, rest: Seq<u8>)
    requires
        before.len() + lines.len() > 0,
        forall|i: int| 0 <= i < lines.len() ==> one_line(#[trigger] lines[i]),
    ensures
        next_payload(event_bytes(lines) + rest, before) == (Taken {
            payload: Some(join_lines(before + lines)),
            buffer: rest,
            lines: Seq::empty(),
        }),
    decreases lines.len(),
{
    if lines.len() == 0 {
        let line = Seq::<u8>::empty();
        assert(line.push(newline()) =~= event_bytes(lines));
        lemma_first_line(line, rest);
        assert(line.push(newline()).take(0) =~= Seq::empty());
        assert(before + lines =~= before);
    } else {
        let line = encode_utf8("data: "@ + lines[0]);
        let tail = lines.drop_first();
        lemma_data_line(lines[0]);
        lemma_first_line(line, event_bytes(tail) + rest);
        assert(event_bytes(lines) + rest =~= line.push(newline()) + (event_bytes(tail) + rest));
        lemma_event_round_trip(before.push(lines[0]), tail, rest);
        assert(before.push(lines[0]) + tail =~= before + lines);
    }
}

} // verus!
