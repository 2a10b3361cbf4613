//! The duplex channel: events go in and the correlated outputs of an agent come back on one
//! WebSocket connection.
//!
//! The endpoint runs on the WebSocket port of the server, which is the REST port plus one;
//! [`derive_ws_url`] derives its URL from the base URL of a client.
use crate::encode::{encode_query, encode_segment, encoded};
use crate::error::{ErrorModel, PulseError};
use crate::json::{
    json_from_bytes, json_from_text, json_of, json_to_text, member, member_of, null_value,
    object_value, opt_text, read_bytes, read_text, set_text, single, single_value, text_member,
    text_member_of, write_text, Json, Members,
};
use crate::text::{
    ascii_digit, chars_of, decimal, decimal_text, hexadecimal, hexadecimal_text,
    law_hexadecimal_is_injective, law_parse_decimal, lemma_decimal_digits,
    lemma_hexadecimal_has_no_dash, parse_u32, read_u32, same_text, slice_chars, string_of,
};
use serde_json::Value;
use vstd::prelude::*;

verus! {

// ----- the URL of a channel --------------------------------------------------------------------

/// Whether `://` stands at index `i`.
pub open spec fn separator_at(s: Seq<char>, i: int) -> bool {
    0 <= i && i + 3 <= s.len() && s[i] == ':' && s[i + 1] == '/' && s[i + 2] == '/'
}

/// The index of the first `://` at or after `from`.
pub open spec fn first_separator(s: Seq<char>, from: int) -> Option<int>
    decreases s.len() - from,
{
    if from >= s.len() {
        None
    } else if separator_at(s, from) {
        Some(from)
    } else {
        first_separator(s, from + 1)
    }
}

/// The scheme of a URL, and what follows it. A URL without one is taken as `http`.
pub open spec fn split_scheme(url: Seq<char>) -> (Seq<char>, Seq<char>) {
    match first_separator(url, 0) {
        Some(i) => (url.take(i), url.skip(i + 3)),
        None => ("http"@, url),
    }
}

/// A character in lower case, where it is an ASCII letter.
pub open spec fn ascii_lower(c: char) -> char {
    if 'A' <= c <= 'Z' {
        (c as u8 + 32) as u8 as char
    } else {
        c
    }
}

/// A text with its ASCII letters in lower case.
pub open spec fn lower(s: Seq<char>) -> Seq<char> {
    s.map_values(|c: char| ascii_lower(c))
}

/// The WebSocket scheme: `wss` for `https`, and `ws` for any other.
pub open spec fn ws_scheme(scheme: Seq<char>) -> Seq<char> {
    if lower(scheme) == "https"@ {
        "wss"@
    } else {
        "ws"@
    }
}

/// The characters that end the authority of a URL.
pub open spec fn ends_authority(c: char) -> bool {
    c == '/' || c == '?' || c == '#'
}

/// The authority of a URL, given what follows its scheme: all before the first `/`, `?` or `#`.
pub open spec fn authority(rest: Seq<char>) -> Seq<char>
    decreases rest.len(),
{
    if rest.len() == 0 || ends_authority(rest[0]) {
        Seq::empty()
    } else {
        seq![rest[0]] + authority(rest.drop_first())
    }
}

/// The authority without the user information before its last `@`.
pub open spec fn host_port(auth: Seq<char>) -> Seq<char> {
    match auth.index_of_last('@') {
        Some(i) => auth.skip(i + 1),
        None => auth,
    }
}

/// The port of a host and port, where there is a host and a numeric port after its last `:`.
pub open spec fn port_of(hp: Seq<char>) -> Option<u32> {
    match hp.index_of_last(':') {
        Some(i) => if i > 0 {
            parse_u32(hp.skip(i + 1))
        } else {
            None
        },
        None => None,
    }
}

/// The host and port of the WebSocket server: the port goes up by one; without a numeric port all
/// stays as it is, and an empty host becomes `localhost`.
pub open spec fn ws_netloc(hp: Seq<char>) -> Seq<char> {
    match port_of(hp) {
        Some(port) => hp.take(hp.index_of_last(':')->0) + ":"@ + decimal((port + 1) as nat),
        None => if hp.len() == 0 {
            "localhost"@
        } else {
            hp
        },
    }
}

/// The host and port in a base URL.
pub open spec fn base_host_port(base_url: Seq<char>) -> Seq<char> {
    host_port(authority(split_scheme(base_url).1))
}

/// Whether the port in a base URL, if it has one, has a successor.
pub open spec fn port_has_successor(base_url: Seq<char>) -> bool {
    port_of(base_host_port(base_url)) != Some(u32::MAX)
}

/// The query that carries a token; none without one.
pub open spec fn token_query(token: Option<Seq<char>>) -> Seq<char> {
    match token {
        Some(t) => if t.len() > 0 {
            "?token="@ + encoded(t)
        } else {
            Seq::empty()
        },
        None => Seq::empty(),
    }
}

/// The path of the duplex endpoint of an agent.
pub open spec fn duplex_path(agent_id: Seq<char>) -> Seq<char> {
    "/api/pulse/agents/"@ + encoded(agent_id) + "/duplex"@
}

/// The URL of the duplex endpoint of an agent.
pub open spec fn ws_url(
    base_url: Seq<char>,
    agent_id: Seq<char>,
    token: Option<Seq<char>>,
) -> Seq<char> {
    ws_scheme(split_scheme(base_url).0) + "://"@ + ws_netloc(base_host_port(base_url))
        + duplex_path(agent_id) + token_query(token)
}

/// The text of a string slice that may be absent.
pub open spec fn opt_slice(text: Option<&str>) -> Option<Seq<char>> {
    match text {
        Some(t) => Some(t@),
        None => None,
    }
}

/// The index of the last `c`.
fn find_last(cs: &Vec<char>, c: char) -> (r: Option<usize>)
    ensures
        match r {
            Some(i) => cs@.index_of_last(c) == Some(i as int) && i < cs.len(),
            None => cs@.index_of_last(c) is None,
        },
{
    proof {
        cs@.index_of_last_ensures(c);
    }
    let mut i: usize = cs.len();
    while i > 0
        invariant
            i <= cs.len(),
            forall|j: int| i <= j < cs@.len() ==> cs@[j] != c,
        decreases i,
    {
        i -= 1;
        if cs[i] == c {
            proof {
                cs@.index_of_last_ensures(c);
                assert(cs@.contains(c));
            }
            return Some(i);
        }
    }
    None
}

/// The index of the first `://`.
fn find_separator(cs: &Vec<char>) -> (r: Option<usize>)
    ensures
        match r {
            Some(i) => first_separator(cs@, 0) == Some(i as int) && i + 3 <= cs@.len(),
            None => first_separator(cs@, 0) is None,
        },
{
    let mut i: usize = 0;
    while i < cs.len()
        invariant
            i <= cs.len(),
            first_separator(cs@, 0) == first_separator(cs@, i as int),
        decreases cs.len() - i,
    {
        if cs.len() - i >= 3 && cs[i] == ':' && cs[i + 1] == '/' && cs[i + 2] == '/' {
            return Some(i);
        }
        i += 1;
    }
    None
}

/// Whether a scheme is `https`, in whatever case.
fn is_https(cs: &Vec<char>) -> (r: bool)
    ensures
        r == (lower(cs@) == "https"@),
{
    proof {
        reveal_strlit("https");
    }
    let r = cs.len() == 5 && (cs[0] == 'h' || cs[0] == 'H') && (cs[1] == 't' || cs[1] == 'T') && (
    cs[2] == 't' || cs[2] == 'T') && (cs[3] == 'p' || cs[3] == 'P') && (cs[4] == 's' || cs[4]
        == 'S');
    proof {
        let low = lower(cs@);
        if r {
            assert(low =~= "https"@);
        } else if low == "https"@ {
            assert(low.len() == 5);
            assert(low[0] == 'h' && low[1] == 't' && low[2] == 't' && low[3] == 'p' && low[4]
                == 's');
            lemma_lower_is(cs@[0], 'h', 'H');
            lemma_lower_is(cs@[1], 't', 'T');
            lemma_lower_is(cs@[2], 't', 'T');
            lemma_lower_is(cs@[3], 'p', 'P');
            lemma_lower_is(cs@[4], 's', 'S');
        }
    }
    r
}

/// What becomes a given lower-case letter is that letter, or its capital.
pub proof fn lemma_lower_is(c: char, small: char, capital: char)
    requires
        'a' <= small <= 'z',
        small as u32 == capital as u32 + 32,
        ascii_lower(c) == small,
    ensures
        c == small || c == capital,
{
}

/// The host and port of a base URL, and whether its scheme is `https`.
fn split_base(base_url: &str) -> (r: (bool, Vec<char>))
    ensures
        r.0 == (lower(split_scheme(base_url@).0) == "https"@),
        r.1@ == base_host_port(base_url@),
{
    let url = chars_of(base_url);
    let (secure, rest) = match find_separator(&url) {
        Some(i) => {
            let scheme = slice_chars(&url, 0, i);
            assert(scheme@ =~= url@.take(i as int));
            let tail = slice_chars(&url, i + 3, url.len());
            assert(tail@ =~= url@.skip(i + 3));
            (is_https(&scheme), tail)
        },
        None => {
            proof {
                reveal_strlit("http");
                reveal_strlit("https");
                assert(lower("http"@).len() == 4);
            }
            (false, url)
        },
    };
    let mut end: usize = 0;
    assert(rest@.skip(0) =~= rest@);
    assert(rest@.take(0) + authority(rest@.skip(0)) =~= authority(rest@));
    while end < rest.len() && !(rest[end] == '/' || rest[end] == '?' || rest[end] == '#')
        invariant
            end <= rest.len(),
            rest@.take(end as int) + authority(rest@.skip(end as int)) == authority(rest@),
        decreases rest.len() - end,
    {
        let ghost here = rest@.skip(end as int);
        assert(here.drop_first() =~= rest@.skip(end + 1));
        assert(rest@.take(end as int) + (seq![here[0]] + authority(rest@.skip(end + 1)))
            =~= rest@.take(end + 1) + authority(rest@.skip(end + 1)));
        end += 1;
    }
    assert(end < rest@.len() ==> rest@.skip(end as int)[0] == rest@[end as int]);
    assert(authority(rest@.skip(end as int)) =~= Seq::empty());
    let auth = slice_chars(&rest, 0, end);
    assert(auth@ =~= authority(rest@));
    let hp = match find_last(&auth, '@') {
        Some(i) => {
            let tail = slice_chars(&auth, i + 1, auth.len());
            assert(tail@ =~= auth@.skip(i + 1));
            tail
        },
        None => auth,
    };
    (secure, hp)
}

/// The port of a host and port.
fn read_port(hp: &Vec<char>) -> (r: Option<u32>)
    ensures
        r == port_of(hp@),
{
    match find_last(hp, ':') {
        Some(i) => {
            if i > 0 {
                let tail = slice_chars(hp, i + 1, hp.len());
                assert(tail@ =~= hp@.skip(i + 1));
                read_u32(&tail)
            } else {
                None
            }
        },
        None => None,
    }
}

/// Whether the port in `base_url`, if it has one, can go up by one.
pub fn can_bump_port(base_url: &str) -> (r: bool)
    ensures
        r == port_has_successor(base_url@),
{
    let (_, hp) = split_base(base_url);
    match read_port(&hp) {
        Some(port) => port != u32::MAX,
        None => true,
    }
}

/// The URL of the duplex endpoint of an agent: `http` becomes `ws` and `https` becomes `wss`, the
/// host stays and the port goes up by one. The token, where there is one, rides as a query
/// parameter.
pub fn derive_ws_url(base_url: &str, agent_id: &str, token: Option<&str>) -> (r: String)
    requires
        port_has_successor(base_url@),
    ensures
        r@ == ws_url(base_url@, agent_id@, opt_slice(token)),
{
    let (secure, hp) = split_base(base_url);
    let scheme = if secure {
        "wss"
    } else {
        "ws"
    };
    let netloc = match read_port(&hp) {
        Some(port) => match find_last(&hp, ':') {
            Some(i) => {
                let host = slice_chars(&hp, 0, i);
                assert(host@ =~= hp@.take(i as int));
                string_of(&host).concat(":").concat(decimal_text(port as u64 + 1).as_str())
            },
            None => string_of(&hp),
        },
        None => {
            if hp.len() == 0 {
                "localhost".to_owned()
            } else {
                string_of(&hp)
            }
        },
    };
    let path = "/api/pulse/agents/".to_owned().concat(encode_segment(agent_id).as_str()).concat(
        "/duplex",
    );
    let url = scheme.to_owned().concat("://").concat(netloc.as_str()).concat(path.as_str());
    match token {
        Some(t) => {
            if t.is_empty() {
                assert(url@ + Seq::<char>::empty() =~= url@);
                url
            } else {
                let query = "?token=".to_owned().concat(encode_query(t).as_str());
                url.concat(query.as_str())
            }
        },
        None => {
            assert(url@ + Seq::<char>::empty() =~= url@);
            url
        },
    }
}

// ----- correlation ids -------------------------------------------------------------------------

/// A counter that feeds generated correlation ids. One counter serves all channels of a process.
#[derive(Debug)]
pub struct CorrelationCounter {
    next: u64,
}

impl View for CorrelationCounter {
    type V = u64;

    closed spec fn view(&self) -> u64 {
        self.next
    }
}

impl CorrelationCounter {
    /// A counter that starts at 0.
    pub fn new() -> (r: Self)
        ensures
            r@ == 0,
    {
        CorrelationCounter { next: 0 }
    }
}

/// The id that is generated at `millis` milliseconds after the epoch as number `n`.
pub open spec fn generated_id(millis: nat, n: nat) -> Seq<char> {
    "pulse-"@ + hexadecimal(millis) + "-"@ + hexadecimal(n)
}

/// Generates a correlation id from the clock, given in milliseconds after the epoch, and the
/// counter, which moves on.
pub fn generate_correlation_id(counter: &mut CorrelationCounter, millis: u128) -> (r: String)
    ensures
        r@ == generated_id(millis as nat, old(counter)@ as nat),
        final(counter)@ == if old(counter)@ == u64::MAX { 0 } else { old(counter)@ + 1 },
{
    let n = counter.next;
    counter.next = n.wrapping_add(1);
    "pulse-".to_owned().concat(hexadecimal_text(millis).as_str()).concat("-").concat(
        hexadecimal_text(n as u128).as_str(),
    )
}

// ----- messages --------------------------------------------------------------------------------

/// An output event of the agent.
#[derive(Debug)]
pub struct DuplexOutput {
    /// The output event.
    pub event: Value,
    /// The correlation id of the input that produced it, where the server gave one.
    pub correlation_id: Option<String>,
}

impl Clone for DuplexOutput {
    fn clone(&self) -> (r: Self)
        ensures
            json_of(r.event) == json_of(self.event),
            r.correlation_id == self.correlation_id,
    {
        DuplexOutput {
            event: self.event.clone(),
            correlation_id: self.correlation_id.clone(),
        }
    }
}

/// What can arrive on the connection.
#[derive(Debug)]
pub enum Frame {
    Text(String),
    Binary(Vec<u8>),
    Ping,
    Pong,
    /// A frame of no other variant.
    Raw,
    /// The server closed the connection; with the description of the close frame.
    Close(String),
    /// The connection failed, by its description.
    Failed(String),
    /// The connection ended.
    Ended,
}

/// What a frame amounts to.
#[derive(Debug)]
pub enum FrameStep {
    /// Nothing; the next frame decides.
    Skip,
    /// A message.
    Message(Value),
    /// The end of the session.
    Fail(PulseError),
}

/// A message that was read, or the error that reports why it could not be.
pub fn frame_message(read: Result<Value, String>) -> (r: FrameStep)
    ensures
        match read {
            Ok(v) => r == FrameStep::Message(v),
            Err(e) => r matches FrameStep::Fail(err) && err@ == ErrorModel::Json(e@),
        },
{
    match read {
        Ok(v) => FrameStep::Message(v),
        Err(e) => FrameStep::Fail(PulseError::Json(e)),
    }
}

/// Whether a step reports what reading a message gave.
pub open spec fn reports(step: FrameStep, read: Result<Json, Seq<char>>) -> bool {
    match read {
        Ok(doc) => step matches FrameStep::Message(v) && json_of(v) == doc,
        Err(e) => step matches FrameStep::Fail(err) && err@ == ErrorModel::Json(e),
    }
}

/// Whether a step fails with the given description.
pub open spec fn fails_with(step: FrameStep, text: Seq<char>) -> bool {
    step matches FrameStep::Fail(err) && err@ == ErrorModel::Duplex(text)
}

/// Reads one frame of the channel at `url`: a text or binary frame holds a JSON message; pings,
/// pongs and raw frames are passed over; a close or a failure ends the session.
pub fn read_json_frame(url: &str, frame: Frame) -> (r: FrameStep)
    ensures
        match frame {
            Frame::Text(text) => reports(r, json_from_text(text@)),
            Frame::Binary(bytes) => reports(r, json_from_bytes(bytes@)),
            Frame::Ping | Frame::Pong | Frame::Raw => r is Skip,
            Frame::Close(reason) => fails_with(r, url@ + " closed by server: "@ + reason@),
            Frame::Failed(e) => fails_with(r, url@ + ": "@ + e@),
            Frame::Ended => fails_with(r, url@ + ": connection closed before a frame arrived"@),
        },
{
    match frame {
        Frame::Text(text) => frame_message(read_text(text.as_str())),
        Frame::Binary(bytes) => frame_message(read_bytes(bytes.as_slice())),
        Frame::Ping | Frame::Pong | Frame::Raw => FrameStep::Skip,
        Frame::Close(reason) => FrameStep::Fail(
            PulseError::Duplex(
                url.to_owned().concat(" closed by server: ").concat(reason.as_str()),
            ),
        ),
        Frame::Failed(e) => FrameStep::Fail(
            PulseError::Duplex(url.to_owned().concat(": ").concat(e.as_str())),
        ),
        Frame::Ended => FrameStep::Fail(
            PulseError::Duplex(
                url.to_owned().concat(": connection closed before a frame arrived"),
            ),
        ),
    }
}

/// What an error message says: its member `error`, else all of it.
pub open spec fn error_payload(msg: Json) -> Json {
    match member_of(msg, "error"@) {
        Some(e) => e,
        None => msg,
    }
}

fn error_payload_of(msg: Value) -> (r: Value)
    ensures
        json_of(r) == error_payload(json_of(msg)),
{
    let found = match member(&msg, "error") {
        Some(e) => Some(e.clone()),
        None => None,
    };
    match found {
        Some(e) => e,
        None => msg,
    }
}

/// Whether a message is of the given type.
pub open spec fn has_type(msg: Json, name: Seq<char>) -> bool {
    text_member_of(msg, "type"@) == Some(name)
}

fn is_type(msg: &Value, name: &str) -> (r: bool)
    ensures
        r == has_type(json_of(*msg), name@),
{
    match text_member(msg, "type") {
        Some(t) => same_text(t, name),
        None => false,
    }
}

/// The event of an output message: an object stands for itself, any other document is wrapped as
/// `{"value": ..}`, and a missing one is `null`.
pub open spec fn output_event(msg: Json) -> Json {
    match member_of(msg, "event"@) {
        Some(Json::Object(members)) => Json::Object(members),
        Some(other) => single("value"@, other),
        None => Json::Null,
    }
}

/// What a message amounts to for one who waits for an output.
#[derive(Debug)]
pub enum RecvStep {
    /// Nothing; the next frame decides.
    Skip,
    /// An output event.
    Output(DuplexOutput),
    /// A failure.
    Fail(PulseError),
}

/// Whether `step` is what a message amounts to on the channel at `url`. Acknowledgements, pongs and
/// whatever else is neither an output nor an error are passed over.
pub open spec fn answers(url: Seq<char>, msg: Json, step: RecvStep) -> bool {
    if has_type(msg, "output"@) {
        step matches RecvStep::Output(o) && json_of(o.event) == output_event(msg) && opt_text(
            o.correlation_id,
        ) == text_member_of(msg, "correlationId"@)
    } else if has_type(msg, "error"@) {
        step matches RecvStep::Fail(e) && e@ == (ErrorModel::Validation {
            path: url,
            body: Some(error_payload(msg)),
        })
    } else {
        step is Skip
    }
}

/// Whether `step` is what reading a message gave, or what that message amounts to.
pub open spec fn answers_read(
    url: Seq<char>,
    read: Result<Json, Seq<char>>,
    step: RecvStep,
) -> bool {
    match read {
        Ok(msg) => answers(url, msg, step),
        Err(e) => step matches RecvStep::Fail(err) && err@ == ErrorModel::Json(e),
    }
}

/// Whether `step` fails with the given description.
pub open spec fn recv_fails_with(step: RecvStep, text: Seq<char>) -> bool {
    step matches RecvStep::Fail(err) && err@ == ErrorModel::Duplex(text)
}

/// The message that sends `payload` under the id `cid`.
pub open spec fn send_message(cid: Seq<char>, payload: Json) -> Json {
    Json::Object(
        Members::empty().insert("type"@, Json::Str("send"@)).insert(
            "correlationId"@,
            Json::Str(cid),
        ).insert("payload"@, payload),
    )
}

/// The message that sends `payload` under the id `cid`.
pub fn send_value(cid: &str, payload: &Value) -> (r: Value)
    ensures
        json_of(r) == send_message(cid@, json_of(*payload)),
{
    let mut m = serde_json::Map::new();
    set_text(&mut m, "type", "send");
    set_text(&mut m, "correlationId", cid);
    m.insert("payload".to_owned(), payload.clone());
    object_value(m)
}

/// A message that is ready to be sent as a text frame.
#[derive(Debug)]
pub struct Outgoing {
    /// The text of the frame.
    pub text: String,
    /// The id that the matching output will carry.
    pub correlation_id: String,
}

/// The outgoing message with the id `cid`, given what writing it gave.
pub fn outgoing(cid: String, written: Result<String, String>) -> (r: Result<Outgoing, PulseError>)
    ensures
        match written {
            Ok(text) => r == Ok::<Outgoing, PulseError>(Outgoing { text, correlation_id: cid }),
            Err(e) => r matches Err(err) && err@ == ErrorModel::Json(e@),
        },
{
    match written {
        Ok(text) => Ok(Outgoing { text, correlation_id: cid }),
        Err(e) => Err(PulseError::Json(e)),
    }
}

// ----- the channel -----------------------------------------------------------------------------

/// An open duplex session.
#[derive(Debug)]
pub struct DuplexChannel {
    url: String,
}

impl View for DuplexChannel {
    type V = Seq<char>;

    /// The URL of the channel.
    closed spec fn view(&self) -> Seq<char> {
        self.url@
    }
}

/// The error of a connection to `url` that could not be made.
pub fn connect_failed(url: &str, cause: &str) -> (r: PulseError)
    ensures
        r@ == ErrorModel::Duplex("connect "@ + url@ + ": "@ + cause@),
{
    PulseError::Duplex("connect ".to_owned().concat(url).concat(": ").concat(cause))
}

impl DuplexChannel {
    /// The session at `url` that opens with the message `first`. An error message refuses it.
    pub fn connect(url: String, first: Value) -> (r: Result<Self, PulseError>)
        ensures
            if has_type(json_of(first), "error"@) {
                r matches Err(e) && e@ == (ErrorModel::Validation {
                    path: url@,
                    body: Some(error_payload(json_of(first))),
                })
            } else {
                r matches Ok(ch) && ch@ == url@
            },
    {
        if is_type(&first, "error") {
            return Err(PulseError::Validation { path: url, body: Some(error_payload_of(first)) });
        }
        Ok(DuplexChannel { url })
    }

    /// The URL of the channel.
    pub fn url(&self) -> (r: &str)
        ensures
            r@ == self@,
    {
        self.url.as_str()
    }

    /// The frame that publishes `payload`, under the given id or, where none or an empty one is
    /// given, under a generated one.
    pub fn send(
        &self,
        payload: &Value,
        correlation_id: Option<&str>,
        counter: &mut CorrelationCounter,
        millis: u128,
    ) -> (r: Result<Outgoing, PulseError>)
        ensures
            ({
                let given = opt_slice(correlation_id);
                let own = given matches Some(c) && c.len() > 0;
                let cid = if own {
                    given->0
                } else {
                    generated_id(millis as nat, old(counter)@ as nat)
                };
                &&& match json_to_text(send_message(cid, json_of(*payload))) {
                    Ok(text) => r matches Ok(o) && o.text@ == text && o.correlation_id@ == cid,
                    Err(e) => r matches Err(err) && err@ == ErrorModel::Json(e),
                }
                &&& own ==> final(counter)@ == old(counter)@
                &&& !own ==> final(counter)@ == if old(counter)@ == u64::MAX {
                    0
                } else {
                    old(counter)@ + 1
                }
            }),
    {
        let cid = match correlation_id {
            Some(c) => {
                if c.is_empty() {
                    generate_correlation_id(counter, millis)
                } else {
                    c.to_owned()
                }
            },
            None => generate_correlation_id(counter, millis),
        };
        let written = write_text(&send_value(cid.as_str(), payload));
        outgoing(cid, written)
    }

    /// The error of a frame that could not be sent.
    pub fn send_failed(&self, cause: &str) -> (r: PulseError)
        ensures
            r@ == ErrorModel::Duplex("send on "@ + self@ + ": "@ + cause@),
    {
        PulseError::Duplex(
            "send on ".to_owned().concat(self.url.as_str()).concat(": ").concat(cause),
        )
    }

    /// What a message amounts to for one who waits for an output.
    pub fn on_message(&self, msg: Value) -> (r: RecvStep)
        ensures
            answers(self@, json_of(msg), r),
    {
        if is_type(&msg, "output") {
            let event = match member(&msg, "event") {
                Some(e) => {
                    if e.is_object() {
                        e.clone()
                    } else {
                        single_value("value", e.clone())
                    }
                },
                None => null_value(),
            };
            let correlation_id = match text_member(&msg, "correlationId") {
                Some(t) => Some(t.to_owned()),
                None => None,
            };
            return RecvStep::Output(DuplexOutput { event, correlation_id });
        }
        if is_type(&msg, "error") {
            return RecvStep::Fail(
                PulseError::Validation {
                    path: self.url.clone(),
                    body: Some(error_payload_of(msg)),
                },
            );
        }
        RecvStep::Skip
    }

    /// What a frame amounts to for one who waits for an output.
    pub fn recv(&self, frame: Frame) -> (r: RecvStep)
        ensures
            match frame {
                Frame::Text(text) => answers_read(self@, json_from_text(text@), r),
                Frame::Binary(bytes) => answers_read(self@, json_from_bytes(bytes@), r),
                Frame::Ping | Frame::Pong | Frame::Raw => r is Skip,
                Frame::Close(reason) => recv_fails_with(
                    r,
                    self@ + " closed by server: "@ + reason@,
                ),
                Frame::Failed(e) => recv_fails_with(r, self@ + ": "@ + e@),
                Frame::Ended => recv_fails_with(
                    r,
                    self@ + ": connection closed before a frame arrived"@,
                ),
            },
    {
        match read_json_frame(self.url.as_str(), frame) {
            FrameStep::Skip => RecvStep::Skip,
            FrameStep::Message(msg) => self.on_message(msg),
            FrameStep::Fail(e) => RecvStep::Fail(e),
        }
    }

    /// The error of a channel that could not be closed cleanly.
    pub fn close_failed(&self, cause: &str) -> (r: PulseError)
        ensures
            r@ == ErrorModel::Duplex("close "@ + self@ + ": "@ + cause@),
    {
        PulseError::Duplex(
            "close ".to_owned().concat(self.url.as_str()).concat(": ").concat(cause),
        )
    }
}

// ----- laws ------------------------------------------------------------------------------------

/// Whether a text holds neither what ends an authority nor what ends user information.
pub open spec fn plain_host(host: Seq<char>) -> bool {
    forall|i: int|
        0 <= i < host.len() ==> !ends_authority(#[trigger] host[i]) && host[i] != '@'
}

/// What may follow the authority of a URL.
pub open spec fn after_authority(tail: Seq<char>) -> bool {
    tail.len() > 0 ==> ends_authority(tail[0])
}

/// Whether a text has no `:`.
pub open spec fn no_colon(s: Seq<char>) -> bool {
    forall|i: int| 0 <= i < s.len() ==> #[trigger] s[i] != ':'
}

proof fn lemma_first_separator(s: Seq<char>, from: int, k: int)
    requires
        0 <= from <= k < s.len(),
        separator_at(s, k),
        forall|i: int| from <= i < k ==> #[trigger] s[i] != ':',
    ensures
        first_separator(s, from) == Some(k),
    decreases k - from,
{
    if from < k {
        assert(s[from] != ':');
        lemma_first_separator(s, from + 1, k);
    }
}

pub proof fn lemma_authority(auth: Seq<char>, tail: Seq<char>)
    requires
        forall|i: int| 0 <= i < auth.len() ==> !ends_authority(#[trigger] auth[i]),
        after_authority(tail),
    ensures
        authority(auth + tail) == auth,
    decreases auth.len(),
{
    let whole = auth + tail;
    if auth.len() == 0 {
        assert(whole =~= tail);
        assert(authority(whole) =~= auth);
    } else {
        let rest = auth.drop_first();
        assert forall|i: int| 0 <= i < rest.len() implies !ends_authority(#[trigger] rest[i]) by {
            assert(rest[i] == auth[i + 1]);
        }
        lemma_authority(rest, tail);
        assert(whole[0] == auth[0]);
        assert(whole.drop_first() =~= rest + tail);
        assert(authority(whole) =~= auth);
    }
}

/// The scheme and the authority of `scheme://auth` and what may follow.
proof fn lemma_split_base(scheme: Seq<char>, auth: Seq<char>, tail: Seq<char>)
    requires
        no_colon(scheme),
        plain_host(auth),
        after_authority(tail),
    ensures
        split_scheme(scheme + "://"@ + auth + tail).0 == scheme,
        base_host_port(scheme + "://"@ + auth + tail) == auth,
{
    reveal_strlit("://");
    let base = scheme + "://"@ + auth + tail;
    assert forall|i: int| 0 <= i < scheme.len() implies #[trigger] base[i] != ':' by {
        assert(base[i] == scheme[i]);
    }
    lemma_first_separator(base, 0, scheme.len() as int);
    assert(base.take(scheme.len() as int) =~= scheme);
    assert(base.skip(scheme.len() as int + 3) =~= auth + tail);
    lemma_authority(auth, tail);
    auth.index_of_last_ensures('@');
}

/// The URL of a channel keeps the host of `scheme://host:port` and has the next port, whatever path,
/// query or fragment follows.
pub proof fn law_port_goes_up_by_one(
    scheme: Seq<char>,
    host: Seq<char>,
    port: u32,
    tail: Seq<char>,
    agent_id: Seq<char>,
    token: Option<Seq<char>>,
)
    requires
        no_colon(scheme),
        host.len() > 0,
        plain_host(host),
        after_authority(tail),
        port < u32::MAX,
    ensures
        ({
            let base = scheme + "://"@ + (host + ":"@ + decimal(port as nat)) + tail;
            &&& port_has_successor(base)
            &&& ws_url(base, agent_id, token) == ws_scheme(scheme) + "://"@ + (host + ":"@ + decimal(
                (port + 1) as nat,
            )) + duplex_path(agent_id) + token_query(token)
        }),
{
    reveal_strlit(":");
    let digits = decimal(port as nat);
    let hp = host + ":"@ + digits;
    lemma_decimal_digits(port as nat);
    assert forall|i: int| 0 <= i < hp.len() implies !ends_authority(#[trigger] hp[i]) && hp[i]
        != '@' by {
        if i < host.len() {
            assert(hp[i] == host[i]);
        } else if i > host.len() {
            assert(hp[i] == digits[i - host.len() - 1]);
            assert(ascii_digit(digits[i - host.len() - 1]));
        }
    }
    lemma_split_base(scheme, hp, tail);
    let k = host.len() as int;
    assert(hp[k] == ':');
    assert(hp.contains(':'));
    hp.index_of_last_ensures(':');
    let j = hp.index_of_last(':')->0;
    assert(j == k) by {
        if j > k {
            assert(hp[j] == digits[j - k - 1]);
            assert(ascii_digit(digits[j - k - 1]));
        }
    }
    assert(hp.take(k) =~= host);
    assert(hp.skip(k + 1) =~= digits);
    law_parse_decimal(port);
}

/// A host without a port stays as it is.
pub proof fn law_absent_port_stays_absent(
    scheme: Seq<char>,
    host: Seq<char>,
    tail: Seq<char>,
    agent_id: Seq<char>,
    token: Option<Seq<char>>,
)
    requires
        no_colon(scheme),
        host.len() > 0,
        plain_host(host),
        no_colon(host),
        after_authority(tail),
    ensures
        ({
            let base = scheme + "://"@ + host + tail;
            &&& port_has_successor(base)
            &&& ws_url(base, agent_id, token) == ws_scheme(scheme) + "://"@ + host + duplex_path(
                agent_id,
            ) + token_query(token)
        }),
{
    lemma_split_base(scheme, host, tail);
    host.index_of_last_ensures(':');
}

/// Generated ids differ wherever the clock or the counter did, so ids of one counter are unique.
pub proof fn law_correlation_ids_are_unique(millis_a: nat, a: nat, millis_b: nat, b: nat)
    requires
        generated_id(millis_a, a) == generated_id(millis_b, b),
    ensures
        millis_a == millis_b,
        a == b,
{
    reveal_strlit("pulse-");
    reveal_strlit("-");
    let x = hexadecimal(millis_a);
    let y = hexadecimal(millis_b);
    let s = generated_id(millis_a, a);
    let t = generated_id(millis_b, b);
    lemma_hexadecimal_has_no_dash(millis_a);
    lemma_hexadecimal_has_no_dash(millis_b);
    assert(s[6 + x.len() as int] == '-');
    assert(t[6 + y.len() as int] == '-');
    if x.len() < y.len() {
        assert(t[6 + x.len() as int] == y[x.len() as int]);
    }
    if y.len() < x.len() {
        assert(s[6 + y.len() as int] == x[y.len() as int]);
    }
    assert(x =~= y) by {
        assert forall|i: int| 0 <= i < x.len() implies x[i] == y[i] by {
            assert(s[6 + i] == x[i] && t[6 + i] == y[i]);
        }
    }
    let k = 7 + x.len() as int;
    assert(s.skip(k) =~= hexadecimal(a));
    assert(t.skip(k) =~= hexadecimal(b));
    law_hexadecimal_is_injective(millis_a, millis_b);
    law_hexadecimal_is_injective(a, b);
}

/// A message that is sent carries its type, its id and its payload.
pub proof fn law_sent_message_is_complete(cid: Seq<char>, payload: Json)
    ensures
        has_type(send_message(cid, payload), "send"@),
        text_member_of(send_message(cid, payload), "correlationId"@) == Some(cid),
        member_of(send_message(cid, payload), "payload"@) == Some(payload),
{
    reveal_strlit("type");
    reveal_strlit("correlationId");
    reveal_strlit("payload");
    assert("type"@.len() != "correlationId"@.len());
    assert("type"@.len() != "payload"@.len());
    assert("correlationId"@.len() != "payload"@.len());
}

} // verus!
