//! Laws of the duplex channel: its URL, its ids and its messages.
use crate::client::PulseClient;
use crate::duplex::{
    base_host_port, can_bump_port, connect_failed, derive_ws_url, ends_authority,
    first_separator, frame_message, generate_correlation_id, lemma_authority, lemma_lower_is,
    lower, opt_slice, outgoing, port_of, read_json_frame, send_value, separator_at,
    split_scheme, ws_netloc, CorrelationCounter, DuplexChannel, DuplexOutput, Frame, FrameStep,
    Outgoing, RecvStep,
};
use crate::encode::encoded;
use crate::error::PulseError;
use crate::json::{json_from_bytes, json_from_text, json_of, json_to_text, member_of, Json};
use crate::laws::requests::{holds_one, talks_to};
use crate::laws::text::{
    hex_numeral, lemma_blank, lemma_carries, lemma_hex_numeral, lemma_numeral, lemma_parse, read_as,
};
use crate::laws::{all_space, carries, numeral, value_doc};
use crate::text::hexadecimal;
use serde_json::Value;
use vstd::prelude::*;

verus! {

// ----- the URL ---------------------------------------------------------------------------------

/// Whether the mark `://` stands at index `i`.
pub open spec fn mark_at(s: Seq<char>, i: int) -> bool {
    0 <= i && i + 3 <= s.len() && s[i] == ':' && s[i + 1] == '/' && s[i + 2] == '/'
}

/// Whether a character begins the path, the query or the fragment of a URL.
pub open spec fn begins_rest(c: char) -> bool {
    c == '/' || c == '?' || c == '#'
}

/// Whether a URL is made of these parts: the scheme before its first `://`, if it has one; the user
/// information up to the last `@`; the host and port; and what comes behind them.
pub open spec fn made_of(
    url: Seq<char>,
    scheme: Option<Seq<char>>,
    user: Seq<char>,
    hp: Seq<char>,
    behind: Seq<char>,
) -> bool {
    &&& match scheme {
        Some(s) => url == s + "://"@ + (user + hp + behind) && forall|i: int|
            0 <= i < s.len() ==> !#[trigger] mark_at(url, i),
        None => url == user + hp + behind && forall|i: int|
            0 <= i < url.len() ==> !#[trigger] mark_at(url, i),
    }
    &&& user.len() > 0 ==> user.last() == '@'
    &&& forall|i: int| 0 <= i < user.len() ==> !begins_rest(#[trigger] user[i])
    &&& forall|i: int| 0 <= i < hp.len() ==> !begins_rest(#[trigger] hp[i]) && hp[i] != '@'
    &&& behind.len() > 0 ==> begins_rest(behind[0])
}

/// Whether a scheme is `https`, in whatever case its letters are.
pub open spec fn secure(scheme: Option<Seq<char>>) -> bool {
    match scheme {
        Some(s) => {
            &&& s.len() == 5
            &&& s[0] == 'h' || s[0] == 'H'
            &&& s[1] == 't' || s[1] == 'T'
            &&& s[2] == 't' || s[2] == 'T'
            &&& s[3] == 'p' || s[3] == 'P'
            &&& s[4] == 's' || s[4] == 'S'
        },
        None => false,
    }
}

/// Whether the port `n` stands behind a host and the last `:`, at index `k`.
pub open spec fn port_at(hp: Seq<char>, k: int, n: u32) -> bool {
    &&& 0 < k < hp.len()
    &&& hp[k] == ':'
    &&& forall|i: int| k < i < hp.len() ==> #[trigger] hp[i] != ':'
    &&& read_as(hp.skip(k + 1), Some(n))
}

/// Whether `ws` is `hp` with the next port. Without a port it is the same, and without anything it
/// is `localhost`.
pub open spec fn next_door(hp: Seq<char>, ws: Seq<char>) -> bool {
    &&& hp.len() == 0 ==> ws == "localhost"@
    &&& forall|k: int, n: u32| #[trigger]
        port_at(hp, k, n) ==> exists|digits: Seq<char>| #[trigger]
            numeral(digits, n as nat + 1) && ws == hp.take(k) + ":"@ + digits
    &&& hp.len() > 0 && (forall|k: int, n: u32| !#[trigger] port_at(hp, k, n)) ==> ws == hp
}

/// Whether `query` carries the token; nothing does so without one.
pub open spec fn token_part(query: Seq<char>, token: Option<Seq<char>>) -> bool {
    match token {
        Some(t) => if t.len() > 0 {
            exists|e: Seq<char>| #[trigger] carries(e, t) && query == "?token="@ + e
        } else {
            query.len() == 0
        },
        None => query.len() == 0,
    }
}

/// Whether `url` is that of the channel to an agent, on the port next to `hp`.
pub open spec fn channel_url(
    url: Seq<char>,
    safe: bool,
    hp: Seq<char>,
    agent_id: Seq<char>,
    token: Option<Seq<char>>,
) -> bool {
    exists|ws: Seq<char>, id: Seq<char>, query: Seq<char>| #[trigger]
        next_door(hp, ws) && #[trigger] carries(id, agent_id) && #[trigger] token_part(query, token)
            && url == (if safe {
            "wss"@
        } else {
            "ws"@
        }) + "://"@ + ws + "/api/pulse/agents/"@ + id + "/duplex"@ + query
}

proof fn lemma_first_mark(s: Seq<char>, from: int, k: int)
    requires
        0 <= from <= k <= s.len(),
        k < s.len() ==> mark_at(s, k),
        forall|i: int| 0 <= i < k ==> !#[trigger] mark_at(s, i),
    ensures
        first_separator(s, from) == if k < s.len() {
            Some(k)
        } else {
            None
        },
    decreases k - from,
{
    if from < s.len() {
        assert(mark_at(s, from) == separator_at(s, from));
        if from < k {
            lemma_first_mark(s, from + 1, k);
        }
    }
}

proof fn lemma_secure(s: Seq<char>)
    ensures
        secure(Some(s)) == (lower(s) == "https"@),
{
    reveal_strlit("https");
    let low = lower(s);
    if secure(Some(s)) {
        assert(low =~= "https"@);
    } else if low == "https"@ {
        assert(low.len() == 5);
        assert(low[0] == 'h' && low[1] == 't' && low[2] == 't' && low[3] == 'p' && low[4] == 's');
        lemma_lower_is(s[0], 'h', 'H');
        lemma_lower_is(s[1], 't', 'T');
        lemma_lower_is(s[2], 't', 'T');
        lemma_lower_is(s[3], 'p', 'P');
        lemma_lower_is(s[4], 's', 'S');
    }
}

proof fn lemma_parts(
    url: Seq<char>,
    scheme: Option<Seq<char>>,
    user: Seq<char>,
    hp: Seq<char>,
    behind: Seq<char>,
)
    requires
        made_of(url, scheme, user, hp, behind),
    ensures
        base_host_port(url) == hp,
        (lower(split_scheme(url).0) == "https"@) == secure(scheme),
{
    let rest = user + hp + behind;
    let auth = user + hp;
    match scheme {
        Some(s) => {
            reveal_strlit("://");
            let k = s.len() as int;
            assert(url[k] == ':' && url[k + 1] == '/' && url[k + 2] == '/');
            lemma_first_mark(url, 0, k);
            assert(url.take(k) =~= s);
            assert(url.skip(k + 3) =~= rest);
            lemma_secure(s);
        },
        None => {
            lemma_first_mark(url, 0, url.len() as int);
            reveal_strlit("http");
            reveal_strlit("https");
            assert(lower("http"@).len() == 4);
        },
    }
    assert forall|i: int| 0 <= i < auth.len() implies !ends_authority(#[trigger] auth[i]) by {
        if i < user.len() {
            assert(auth[i] == user[i]);
        } else {
            assert(auth[i] == hp[i - user.len()]);
        }
    }
    lemma_authority(auth, behind);
    auth.index_of_last_ensures('@');
    if user.len() > 0 {
        let k = user.len() - 1;
        assert(auth[k] == '@');
        assert(auth.contains('@'));
        let j = auth.index_of_last('@')->0;
        assert(j == k) by {
            if j > k {
                assert(auth[j] == hp[j - user.len()]);
            }
        }
        assert(auth.skip(k + 1) =~= hp);
    } else {
        assert(auth =~= hp);
    }
}

proof fn lemma_next_door(hp: Seq<char>)
    ensures
        next_door(hp, ws_netloc(hp)),
        forall|k: int, n: u32| #[trigger] port_at(hp, k, n) ==> port_of(hp) == Some(n),
        port_of(hp) matches Some(n) ==> port_at(hp, hp.index_of_last(':')->0, n),
{
    hp.index_of_last_ensures(':');
    assert forall|k: int, n: u32| #[trigger] port_at(hp, k, n) implies port_of(hp) == Some(n)
        && hp.index_of_last(':') == Some(k) by {
        assert(hp.contains(':'));
        let j = hp.index_of_last(':')->0;
        assert(j == k);
        lemma_parse(hp.skip(k + 1));
    }
    if let Some(n) = port_of(hp) {
        let k = hp.index_of_last(':')->0;
        lemma_parse(hp.skip(k + 1));
        lemma_numeral(n as nat + 1);
        assert(port_at(hp, k, n));
    }
}

proof fn lemma_url(
    base: Seq<char>,
    scheme: Option<Seq<char>>,
    user: Seq<char>,
    hp: Seq<char>,
    behind: Seq<char>,
    agent_id: Seq<char>,
    token: Option<Seq<char>>,
)
    requires
        made_of(base, scheme, user, hp, behind),
    ensures
        channel_url(crate::duplex::ws_url(base, agent_id, token), secure(scheme), hp, agent_id, token),
{
    lemma_parts(base, scheme, user, hp, behind);
    lemma_next_door(hp);
    lemma_carries(agent_id);
    let query = crate::duplex::token_query(token);
    if let Some(t) = token {
        lemma_carries(t);
    }
    assert(token_part(query, token));
    let ws = ws_netloc(hp);
    let id = encoded(agent_id);
    let scheme_text = if secure(scheme) {
        "wss"@
    } else {
        "ws"@
    };
    assert(next_door(hp, ws) && carries(id, agent_id) && token_part(query, token));
    assert(crate::duplex::ws_url(base, agent_id, token) =~= scheme_text + "://"@ + ws
        + "/api/pulse/agents/"@ + id + "/duplex"@ + query);
}

/// The channel to an agent is on the host of the base URL, one port up, and safe where the base URL
/// is. The token rides along where there is one.
pub proof fn law_channel_urls(
    base: &str,
    scheme: Option<Seq<char>>,
    user: Seq<char>,
    hp: Seq<char>,
    behind: Seq<char>,
    agent_id: &str,
    token: Option<&str>,
    r: String,
    next: bool,
)
    requires
        made_of(base@, scheme, user, hp, behind),
        call_ensures(can_bump_port, (base,), next),
        call_ensures(derive_ws_url, (base, agent_id, token), r),
    ensures
        channel_url(
            r@,
            secure(scheme),
            hp,
            agent_id@,
            match token {
                Some(t) => Some(t@),
                None => None,
            },
        ),
        next <==> forall|k: int| !#[trigger] port_at(hp, k, u32::MAX),
        next ==> call_requires(derive_ws_url, (base, agent_id, token)),
{
    lemma_url(base@, scheme, user, hp, behind, agent_id@, opt_slice(token));
    lemma_parts(base@, scheme, user, hp, behind);
    lemma_next_door(hp);
}

/// A client opens a channel with its own URL and its own token, to an agent whose id is not blank.
pub proof fn law_client_channels(
    client: PulseClient,
    base: &str,
    token: Option<String>,
    scheme: Option<Seq<char>>,
    user: Seq<char>,
    hp: Seq<char>,
    behind: Seq<char>,
    agent_id: &str,
    r: Result<String, PulseError>,
)
    requires
        talks_to(client, base, token),
        made_of(base@, scheme, user, hp, behind),
        call_ensures(PulseClient::duplex, (&client, agent_id), r),
    ensures
        if all_space(agent_id@) {
            r matches Err(PulseError::InvalidConfig(t))
                && t@ == "agent_id must be a non-empty string"@
        } else {
            r matches Ok(url) && channel_url(
                url@,
                secure(scheme),
                hp,
                agent_id@,
                match token {
                    Some(t) => Some(t@),
                    None => None,
                },
            )
        },
        (forall|k: int| !#[trigger] port_at(hp, k, u32::MAX)) ==> call_requires(
            PulseClient::duplex,
            (&client, agent_id),
        ),
{
    lemma_blank(agent_id@);
    lemma_url(base@, scheme, user, hp, behind, agent_id@, client@.token);
    lemma_parts(base@, scheme, user, hp, behind);
    lemma_next_door(hp);
}

// ----- ids -------------------------------------------------------------------------------------

/// Whether `id` is the one that is generated at `millis` as number `n`.
pub open spec fn id_of(id: Seq<char>, millis: nat, n: nat) -> bool {
    exists|time: Seq<char>, count: Seq<char>| #[trigger]
        hex_numeral(time, millis) && #[trigger] hex_numeral(count, n) && id == "pulse-"@ + time
            + "-"@ + count
}

/// Whether a counter moves on from `before` to `after`: by one, and from the last number to the
/// first.
pub open spec fn moves_on(before: u64, after: u64) -> bool {
    if before == u64::MAX {
        after == 0
    } else {
        after == before + 1
    }
}

proof fn lemma_id(millis: nat, n: nat)
    ensures
        id_of(crate::duplex::generated_id(millis, n), millis, n),
{
    lemma_hex_numeral(millis);
    lemma_hex_numeral(n);
    assert(hex_numeral(hexadecimal(millis), millis) && hex_numeral(hexadecimal(n), n));
}

/// An id is made of the time and the count, and the count moves on from 0.
pub proof fn law_ids(
    counter: &mut CorrelationCounter,
    millis: u128,
    id: String,
    new: CorrelationCounter,
)
    requires
        call_ensures(generate_correlation_id, (counter, millis), id),
        call_ensures(CorrelationCounter::new, (), new),
    ensures
        id_of(id@, millis as nat, old(counter)@ as nat),
        moves_on(old(counter)@, final(counter)@),
        new@ == 0,
{
    lemma_id(millis as nat, old(counter)@ as nat);
}

// ----- messages --------------------------------------------------------------------------------

/// Whether a document is the message that sends `payload` under `cid`.
pub open spec fn sends(doc: Json, cid: Seq<char>, payload: Json) -> bool {
    doc matches Json::Object(members) && members.dom() =~= set![
        "type"@,
        "correlationId"@,
        "payload"@,
    ] && members["type"@] == Json::Str("send"@) && members["correlationId"@] == Json::Str(cid)
        && members["payload"@] == payload
}

proof fn lemma_sends(cid: Seq<char>, payload: Json)
    ensures
        sends(crate::duplex::send_message(cid, payload), cid, payload),
{
    reveal_strlit("type");
    reveal_strlit("correlationId");
    reveal_strlit("payload");
    assert("type"@.len() != "correlationId"@.len());
    assert("type"@.len() != "payload"@.len());
    assert("correlationId"@.len() != "payload"@.len());
}

/// Whether `r` is the message that sends `payload` under `cid`, written down, or the error that
/// says why it cannot be written.
pub open spec fn sent(r: Result<Outgoing, PulseError>, cid: Seq<char>, payload: Json) -> bool {
    exists|doc: Json| #[trigger]
        sends(doc, cid, payload) && match json_to_text(doc) {
            Ok(text) => r matches Ok(o) && o.text@ == text && o.correlation_id@ == cid,
            Err(cause) => r matches Err(PulseError::Json(t)) && t@ == cause,
        }
}

/// A payload is sent under the id that is given. Where none is given, or an empty one, it is sent
/// under a generated one, and only then does the counter move on.
pub proof fn law_sending(
    channel: DuplexChannel,
    payload: &Value,
    given: Option<&str>,
    counter: &mut CorrelationCounter,
    millis: u128,
    r: Result<Outgoing, PulseError>,
)
    requires
        call_ensures(DuplexChannel::send, (&channel, payload, given, counter, millis), r),
    ensures
        if given matches Some(cid) && cid@.len() > 0 {
            sent(r, given->0@, json_of(*payload)) && final(counter)@ == old(counter)@
        } else {
            moves_on(old(counter)@, final(counter)@) && exists|cid: Seq<char>| #[trigger]
                id_of(cid, millis as nat, old(counter)@ as nat) && sent(r, cid, json_of(*payload))
        },
{
    let cid = if given matches Some(c) && c@.len() > 0 {
        given->0@
    } else {
        crate::duplex::generated_id(millis as nat, old(counter)@ as nat)
    };
    lemma_id(millis as nat, old(counter)@ as nat);
    lemma_sends(cid, json_of(*payload));
    assert(sends(crate::duplex::send_message(cid, json_of(*payload)), cid, json_of(*payload)));
    assert(sent(r, cid, json_of(*payload)));
}

/// The message that sends a payload, and what becomes of writing it.
pub proof fn law_outgoing(
    cid: &str,
    payload: &Value,
    doc: Value,
    id: String,
    written: Result<String, String>,
    r: Result<Outgoing, PulseError>,
)
    requires
        call_ensures(send_value, (cid, payload), doc),
        call_ensures(outgoing, (id, written), r),
    ensures
        sends(json_of(doc), cid@, json_of(*payload)),
        match written {
            Ok(text) => r matches Ok(o) && o.text@ == text@ && o.correlation_id@ == id@,
            Err(cause) => r matches Err(PulseError::Json(t)) && t@ == cause@,
        },
{
    lemma_sends(cid@, json_of(*payload));
}

/// Whether a message says of itself that it is of the given type.
pub open spec fn typed(msg: Json, name: Seq<char>) -> bool {
    member_of(msg, "type"@) == Some(Json::Str(name))
}

/// Whether `e` refuses with what the error message says: its member `error`, else all of it.
pub open spec fn refused_by(e: PulseError, url: Seq<char>, msg: Json) -> bool {
    e matches PulseError::Validation { path, body } && path@ == url && value_doc(body) == Some(
        match member_of(msg, "error"@) {
            Some(told) => told,
            None => msg,
        },
    )
}

/// Whether `event` is that of an output message: an object as it is, anything else as the member
/// `value` of an object, and `null` where there is none.
pub open spec fn event_of(event: Json, msg: Json) -> bool {
    match member_of(msg, "event"@) {
        Some(doc) => if doc is Object {
            event == doc
        } else {
            holds_one(Some(event), "value"@, doc)
        },
        None => event is Null,
    }
}

/// Whether `step` is what a message means to one who waits for outputs on the channel at `url`.
pub open spec fn means(step: RecvStep, url: Seq<char>, msg: Json) -> bool {
    if typed(msg, "output"@) {
        step matches RecvStep::Output(o) && event_of(json_of(o.event), msg)
            && match o.correlation_id {
            Some(cid) => member_of(msg, "correlationId"@) == Some(Json::Str(cid@)),
            None => !(member_of(msg, "correlationId"@) matches Some(doc) && doc is Str),
        }
    } else if typed(msg, "error"@) {
        step matches RecvStep::Fail(e) && refused_by(e, url, msg)
    } else {
        step is Skip
    }
}

/// Whether `e` is the failure of a channel with the given text.
pub open spec fn breaks(e: PulseError, text: Seq<char>) -> bool {
    e matches PulseError::Duplex(t) && t@ == text
}

proof fn lemma_types()
    ensures
        "output"@ != "error"@,
{
    reveal_strlit("output");
    reveal_strlit("error");
    assert("output"@.len() != "error"@.len());
}

/// A channel is opened by any first message but an error, which refuses it.
pub proof fn law_opening_channels(
    url: String,
    first: Value,
    r: Result<DuplexChannel, PulseError>,
    channel: DuplexChannel,
    shown: &str,
    cause: &str,
    failure: PulseError,
)
    requires
        call_ensures(DuplexChannel::connect, (url, first), r),
        call_ensures(DuplexChannel::url, (&channel,), shown),
        call_ensures(connect_failed, (shown, cause), failure),
    ensures
        if typed(json_of(first), "error"@) {
            r matches Err(e) && refused_by(e, url@, json_of(first))
        } else {
            r is Ok && (r == Ok::<DuplexChannel, PulseError>(channel) ==> shown@ == url@)
        },
        breaks(failure, "connect "@ + shown@ + ": "@ + cause@),
{
}

/// An output goes to the one who waits, an error fails, and any other message is passed over.
pub proof fn law_messages(channel: DuplexChannel, url: &str, msg: Value, r: RecvStep)
    requires
        call_ensures(DuplexChannel::url, (&channel,), url),
        call_ensures(DuplexChannel::on_message, (&channel, msg), r),
    ensures
        means(r, url@, json_of(msg)),
{
    lemma_types();
}

/// A text or binary frame is a message, or fails to be one. Pings, pongs and raw frames are passed
/// over, and anything else ends the session.
pub proof fn law_frames(
    channel: DuplexChannel,
    url: &str,
    frame: Frame,
    step: FrameStep,
    r: RecvStep,
)
    requires
        call_ensures(DuplexChannel::url, (&channel,), url),
        call_ensures(read_json_frame, (url, frame), step),
        call_ensures(DuplexChannel::recv, (&channel, frame), r),
    ensures
        match frame {
            Frame::Text(text) => reads(step, json_from_text(text@)) && received(
                r,
                url@,
                json_from_text(text@),
            ),
            Frame::Binary(bytes) => reads(step, json_from_bytes(bytes@)) && received(
                r,
                url@,
                json_from_bytes(bytes@),
            ),
            Frame::Ping => step is Skip && r is Skip,
            Frame::Pong => step is Skip && r is Skip,
            Frame::Raw => step is Skip && r is Skip,
            Frame::Close(reason) => ends(step, r, url@ + " closed by server: "@ + reason@),
            Frame::Failed(cause) => ends(step, r, url@ + ": "@ + cause@),
            Frame::Ended => ends(step, r, url@ + ": connection closed before a frame arrived"@),
        },
{
    lemma_types();
}

/// Whether `step` is a message that was read, or the error that says why it was not.
pub open spec fn reads(step: FrameStep, read: Result<Json, Seq<char>>) -> bool {
    match read {
        Ok(doc) => step matches FrameStep::Message(v) && json_of(v) == doc,
        Err(cause) => step matches FrameStep::Fail(PulseError::Json(t)) && t@ == cause,
    }
}

/// Whether `step` is what a message means that was read, or the error that says why it was not.
pub open spec fn received(step: RecvStep, url: Seq<char>, read: Result<Json, Seq<char>>) -> bool {
    match read {
        Ok(doc) => means(step, url, doc),
        Err(cause) => step matches RecvStep::Fail(PulseError::Json(t)) && t@ == cause,
    }
}

/// Whether both steps end the session with the given text.
pub open spec fn ends(step: FrameStep, r: RecvStep, text: Seq<char>) -> bool {
    &&& step matches FrameStep::Fail(e) && breaks(e, text)
    &&& r matches RecvStep::Fail(f) && breaks(f, text)
}

/// A message that was read is that message, and one that was not is reported with the cause.
pub proof fn law_read_messages(read: Result<Value, String>, r: FrameStep)
    requires
        call_ensures(frame_message, (read,), r),
    ensures
        match read {
            Ok(v) => r matches FrameStep::Message(w) && json_of(w) == json_of(v),
            Err(cause) => r matches FrameStep::Fail(PulseError::Json(t)) && t@ == cause@,
        },
{
}

/// What fails on a channel names the channel and the cause.
pub proof fn law_channel_failures(
    channel: DuplexChannel,
    url: &str,
    cause: &str,
    sending: PulseError,
    closing: PulseError,
)
    requires
        call_ensures(DuplexChannel::url, (&channel,), url),
        call_ensures(DuplexChannel::send_failed, (&channel, cause), sending),
        call_ensures(DuplexChannel::close_failed, (&channel, cause), closing),
    ensures
        breaks(sending, "send on "@ + url@ + ": "@ + cause@),
        breaks(closing, "close "@ + url@ + ": "@ + cause@),
{
}

/// A copy of an output is that output.
pub proof fn law_output_copies(output: DuplexOutput, copy: DuplexOutput)
    requires
        call_ensures(<DuplexOutput as Clone>::clone, (&output,), copy),
    ensures
        json_of(copy.event) == json_of(output.event),
        copy.correlation_id == output.correlation_id,
{
}

} // verus!
