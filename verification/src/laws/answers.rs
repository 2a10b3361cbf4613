//! Laws of answers: what becomes of a status, a header and a body.
use crate::error::PulseError;
use crate::events::{refusal, EventsResource, EventsStream};
use crate::json::{json_from_bytes, json_of, member_of, Json};
use crate::laws::requests::holds_one;
use crate::laws::text::{lemma_numeral, lemma_parse, lemma_trim, read_as, stripped};
use crate::laws::{numeral, value_doc};
use crate::response::{
    cut, finish_response, interpret_response, is_success, law_cut_is_the_longest_beginning,
    parse_retry_after, read_body, translate_error, wants_body, ResponseBody,
};
use crate::text::{decimal, lossy_text, trim};
use serde_json::Value;
use vstd::prelude::*;
use vstd::utf8::*;

verus! {

// ----- errors ----------------------------------------------------------------------------------

/// Whether `e` is the error of an answer with `status`: its variant is that of the status, and it
/// keeps the path and the body, and with a rate limit the wait.
pub open spec fn refused_with(
    e: PulseError,
    status: u16,
    path: Seq<char>,
    body: Option<Json>,
    wait: Option<u32>,
) -> bool {
    match e {
        PulseError::Auth { path: p, body: b } => status == 401 && p@ == path
            && value_doc(b) == body,
        PulseError::NotFound { path: p, body: b } => status == 404 && p@ == path && value_doc(b)
            == body,
        PulseError::Validation { path: p, body: b } => status == 400 && p@ == path && value_doc(b)
            == body,
        PulseError::RateLimit { path: p, body: b, retry_after_seconds } => status == 429 && p@
            == path && value_doc(b) == body && retry_after_seconds == wait,
        PulseError::Api { status: s, path: p, body: b } => s == status && status != 400 && status
            != 401 && status != 404 && status != 429 && p@ == path && value_doc(b) == body,
        _ => false,
    }
}

/// The wait that an answer advises: the whole number `retryAfterSeconds` of its body, else that of
/// its header. One that 32 bits cannot hold counts as the longest that they can.
pub open spec fn advised(body: Option<Json>, header: Option<u32>) -> Option<u32> {
    match body {
        Some(doc) => match member_of(doc, "retryAfterSeconds"@) {
            Some(Json::Int(n)) => if n < 0 || n > u64::MAX {
                header
            } else if n > u32::MAX {
                Some(u32::MAX)
            } else {
                Some(n as u32)
            },
            _ => header,
        },
        None => header,
    }
}

/// Each status has its error, which keeps the answer.
pub proof fn law_errors(
    status: u16,
    path: &str,
    body: Option<Value>,
    retry_after: Option<u32>,
    r: PulseError,
)
    requires
        call_ensures(translate_error, (status, path, body, retry_after), r),
    ensures
        refused_with(r, status, path@, value_doc(body), advised(value_doc(body), retry_after)),
{
}

/// A header advises a wait where it is a number, with white space around it or not.
pub proof fn law_header(header: Option<&str>, r: Option<u32>)
    requires
        call_ensures(parse_retry_after, (header,), r),
    ensures
        match header {
            Some(text) => exists|part: Seq<char>| #[trigger]
                stripped(text@, part) && read_as(part, r),
            None => r is None,
        },
{
    if let Some(text) = header {
        lemma_trim(text@);
        lemma_parse(trim(text@));
    }
}

/// What an error says of itself is what it holds.
pub proof fn law_error_accessors(
    e: PulseError,
    auth: bool,
    not_found: bool,
    validation: bool,
    rate_limited: bool,
    status: Option<u16>,
    body: Option<&Value>,
    path: Option<&str>,
)
    requires
        call_ensures(PulseError::is_auth_error, (&e,), auth),
        call_ensures(PulseError::is_not_found, (&e,), not_found),
        call_ensures(PulseError::is_validation_error, (&e,), validation),
        call_ensures(PulseError::is_rate_limited, (&e,), rate_limited),
        call_ensures(PulseError::status_code, (&e,), status),
        call_ensures(PulseError::body, (&e,), body),
        call_ensures(PulseError::path, (&e,), path),
    ensures
        auth <==> e is Auth || e is NoToken,
        not_found <==> e is NotFound,
        validation <==> e is Validation,
        rate_limited <==> e is RateLimit,
        status == match e {
            PulseError::Auth { .. } => Some(401u16),
            PulseError::NotFound { .. } => Some(404u16),
            PulseError::Validation { .. } => Some(400u16),
            PulseError::RateLimit { .. } => Some(429u16),
            PulseError::Api { status: s, .. } => Some(s),
            _ => None,
        },
        (match body {
            Some(v) => Some(json_of(*v)),
            None => None,
        }) == match e {
            PulseError::Auth { body: b, .. } => value_doc(b),
            PulseError::NotFound { body: b, .. } => value_doc(b),
            PulseError::Validation { body: b, .. } => value_doc(b),
            PulseError::RateLimit { body: b, .. } => value_doc(b),
            PulseError::Api { body: b, .. } => value_doc(b),
            _ => None,
        },
        (match path {
            Some(p) => Some(p@),
            None => None,
        }) == match e {
            PulseError::Auth { path: p, .. } => Some(p@),
            PulseError::NotFound { path: p, .. } => Some(p@),
            PulseError::Validation { path: p, .. } => Some(p@),
            PulseError::RateLimit { path: p, .. } => Some(p@),
            PulseError::Api { path: p, .. } => Some(p@),
            PulseError::NoToken { path: p } => Some(p@),
            _ => None,
        },
{
}

/// The reason that an error body gives: the first of `error`, `errorMessage` and `message` that is
/// a string.
pub open spec fn reason(body: Option<Json>) -> Option<Seq<char>> {
    match body {
        Some(doc) => match (
            member_of(doc, "error"@),
            member_of(doc, "errorMessage"@),
            member_of(doc, "message"@),
        ) {
            (Some(Json::Str(text)), _, _) => Some(text),
            (_, Some(Json::Str(text)), _) => Some(text),
            (_, _, Some(Json::Str(text))) => Some(text),
            _ => None,
        },
        None => None,
    }
}

/// Whether `text` describes the error of an answer: by its status, its path and its reason.
pub open spec fn describes(
    text: Seq<char>,
    status: u16,
    path: Seq<char>,
    body: Option<Json>,
) -> bool {
    exists|n: Seq<char>| #[trigger]
        numeral(n, status as nat) && text == "pulse: HTTP "@ + n + " from "@ + path + match reason(
            body,
        ) {
            Some(why) => " — "@ + why,
            None => Seq::empty(),
        }
}

proof fn lemma_describes(status: u16, path: Seq<char>, body: Option<Json>)
    ensures
        describes(crate::error::http_text(status, path, body), status, path, body),
{
    lemma_numeral(status as nat);
    let n = decimal(status as nat);
    let head = "pulse: HTTP "@ + n + " from "@ + path;
    assert(numeral(n, status as nat));
    match reason(body) {
        Some(why) => {
            assert(head + " — "@ + why =~= head + (" — "@ + why));
        },
        None => {
            assert(head + Seq::<char>::empty() =~= head);
        },
    }
}

/// The description of an error names what went wrong, and where.
pub proof fn law_descriptions(e: PulseError, text: String)
    requires
        call_ensures(PulseError::message, (&e,), text),
    ensures
        match e {
            PulseError::Auth { path, body } => describes(text@, 401, path@, value_doc(body)),
            PulseError::NotFound { path, body } => describes(text@, 404, path@, value_doc(body)),
            PulseError::Validation { path, body } => describes(text@, 400, path@, value_doc(body)),
            PulseError::RateLimit { path, body, .. } => describes(
                text@,
                429,
                path@,
                value_doc(body),
            ),
            PulseError::Api { status, path, body } => describes(
                text@,
                status,
                path@,
                value_doc(body),
            ),
            PulseError::Transport(cause) => text@ == "pulse: HTTP transport failure — "@ + cause@,
            PulseError::Json(cause) => text@ == "pulse: JSON encode/decode failure — "@ + cause@,
            PulseError::NoToken { path } => text@ == "pulse: no token set for "@ + path@
                + " — call client.auth().login(...).await first or pass .token(...) to the builder"@,
            PulseError::InvalidConfig(cause) => text@ == "pulse: invalid config — "@ + cause@,
            PulseError::Duplex(cause) => text@ == "pulse: duplex channel failure — "@ + cause@,
        },
{
    match e {
        PulseError::Auth { path, body } => lemma_describes(401, path@, value_doc(body)),
        PulseError::NotFound { path, body } => lemma_describes(404, path@, value_doc(body)),
        PulseError::Validation { path, body } => lemma_describes(400, path@, value_doc(body)),
        PulseError::RateLimit { path, body, .. } => lemma_describes(429, path@, value_doc(body)),
        PulseError::Api { status, path, body } => lemma_describes(status, path@, value_doc(body)),
        _ => {},
    }
}

// ----- outcomes --------------------------------------------------------------------------------

/// The text that bytes stand for; valid UTF-8 stands for itself.
pub open spec fn text_in(bytes: Seq<u8>) -> Seq<char> {
    if valid_utf8(bytes) {
        decode_utf8(bytes)
    } else {
        lossy_text(bytes)
    }
}

/// Whether `part` is the longest beginning of `text` that takes no more than 200 bytes.
pub open spec fn shortened(part: Seq<char>, text: Seq<char>) -> bool {
    &&& part.len() <= text.len()
    &&& part == text.take(part.len() as int)
    &&& encode_utf8(part).len() <= 200
    &&& part.len() < text.len() ==> encode_utf8(text.take(part.len() as int + 1)).len() > 200
}

/// Whether `body` is the document that an error carries for the bytes of an answer: none for none,
/// JSON as it stands, and any other text as `{"error": text}`, shortened where it is to be.
pub open spec fn error_doc(body: Option<Json>, bytes: Seq<u8>, short: bool) -> bool {
    if bytes.len() == 0 {
        body is None
    } else {
        match json_from_bytes(bytes) {
            Ok(doc) => body == Some(doc),
            Err(_) => exists|text: Seq<char>| #[trigger]
                holds_one(body, "error"@, Json::Str(text)) && if short {
                    shortened(text, text_in(bytes))
                } else {
                    text == text_in(bytes)
                },
        }
    }
}

proof fn lemma_shortened(text: Seq<char>)
    ensures
        shortened(cut(text), text),
{
    law_cut_is_the_longest_beginning(text);
    let k = cut(text).len() as int;
    if k < text.len() {
        assert(encode_utf8(text.take(k + 1)).len() > 200);
    }
}

proof fn lemma_error_doc(bytes: Seq<u8>)
    ensures
        error_doc(
            crate::response::error_body(crate::response::body_from_bytes(bytes)),
            bytes,
            true,
        ),
        error_doc(
            crate::events::refusal_body(crate::response::body_from_bytes(bytes)),
            bytes,
            false,
        ),
{
    if bytes.len() > 0 && json_from_bytes(bytes) is Err {
        let text = text_in(bytes);
        lemma_shortened(text);
        let short = crate::response::error_body(crate::response::body_from_bytes(bytes));
        let whole = crate::events::refusal_body(crate::response::body_from_bytes(bytes));
        assert(holds_one(short, "error"@, Json::Str(cut(text))));
        assert(holds_one(whole, "error"@, Json::Str(text)));
    }
}

/// Whether a document is `{}`.
pub open spec fn is_empty_object(doc: Json) -> bool {
    doc matches Json::Object(members) && members.dom() =~= Set::empty()
}

/// A success gives its document, and `{}` without one; any other status gives its error, with all
/// that the answer held.
pub proof fn law_outcomes(
    path: &str,
    status: u16,
    retry_after: Option<&str>,
    bytes: &[u8],
    header: Option<u32>,
    r: Result<Value, PulseError>,
)
    requires
        call_ensures(interpret_response, (path, status, retry_after, bytes), r),
        call_ensures(parse_retry_after, (retry_after,), header),
    ensures
        status == 204 || 200 <= status <= 299 && bytes@.len() == 0 ==> (r matches Ok(doc)
            && is_empty_object(json_of(doc))),
        200 <= status <= 299 && status != 204
            && bytes@.len() > 0 ==> match json_from_bytes(bytes@) {
            Ok(doc) => r matches Ok(v) && json_of(v) == doc,
            Err(cause) => r matches Err(PulseError::Json(text)) && text@ == cause,
        },
        status < 200 || status > 299 ==> (r matches Err(e) && exists|body: Option<Json>| #[trigger]
            error_doc(body, bytes@, true) && refused_with(
                e,
                status,
                path@,
                body,
                advised(body, header),
            )),
{
    lemma_error_doc(bytes@);
}

/// A body is nothing, a document, or a text and why it is no document.
pub proof fn law_bodies(bytes: &[u8], r: ResponseBody)
    requires
        call_ensures(read_body, (bytes,), r),
    ensures
        match r {
            ResponseBody::Empty => bytes@.len() == 0,
            ResponseBody::Json(v) => bytes@.len() > 0 && json_from_bytes(bytes@) == Ok::<
                Json,
                Seq<char>,
            >(json_of(v)),
            ResponseBody::Text { raw, error } => bytes@.len() > 0 && json_from_bytes(bytes@)
                == Err::<Json, Seq<char>>(error@) && raw@ == text_in(bytes@),
        },
{
}

/// Reading an answer and then finishing it is interpreting it.
pub proof fn law_finishing(
    path: &str,
    status: u16,
    retry_after: Option<&str>,
    bytes: &[u8],
    body: ResponseBody,
    finished: Result<Value, PulseError>,
    interpreted: Result<Value, PulseError>,
)
    requires
        call_ensures(read_body, (bytes,), body),
        call_ensures(finish_response, (path, status, retry_after, body), finished),
        call_ensures(interpret_response, (path, status, retry_after, bytes), interpreted),
    ensures
        match (finished, interpreted) {
            (Ok(a), Ok(b)) => json_of(a) == json_of(b),
            (Err(a), Err(b)) => a@ == b@,
            _ => false,
        },
{
}

/// The statuses from 200 to 299 are successes, and only that of 204 has no body.
pub proof fn law_statuses(status: u16, success: bool, body: bool)
    requires
        call_ensures(is_success, (status,), success),
        call_ensures(wants_body, (status,), body),
    ensures
        success <==> 200 <= status <= 299,
        body <==> status != 204,
{
}

// ----- refused streams -------------------------------------------------------------------------

/// A stream is opened by a success, with nothing on it yet, and refused with the error of any other
/// status, which keeps the whole text of the answer.
pub proof fn law_opening(
    resource: EventsResource<'_>,
    status: u16,
    retry_after: Option<&str>,
    bytes: &[u8],
    header: Option<u32>,
    r: Result<EventsStream, PulseError>,
)
    requires
        call_ensures(EventsResource::open, (&resource, status, retry_after, bytes), r),
        call_ensures(parse_retry_after, (retry_after,), header),
    ensures
        200 <= status <= 299 ==> (r matches Ok(stream) && stream@.buffer.len() == 0
            && stream@.lines.len() == 0 && !stream@.done),
        status < 200 || status > 299 ==> (r matches Err(e) && exists|body: Option<Json>| #[trigger]
            error_doc(body, bytes@, false) && refused_with(
                e,
                status,
                "/api/pulse/events/stream"@,
                body,
                advised(body, header),
            )),
{
    lemma_error_doc(bytes@);
}

/// Reading a refusal and then reporting it is refusing the stream.
pub proof fn law_refusals(
    resource: EventsResource<'_>,
    status: u16,
    retry_after: Option<&str>,
    bytes: &[u8],
    body: ResponseBody,
    reported: PulseError,
    opened: Result<EventsStream, PulseError>,
)
    requires
        status < 200 || status > 299,
        call_ensures(read_body, (bytes,), body),
        call_ensures(refusal, (status, retry_after, body), reported),
        call_ensures(EventsResource::open, (&resource, status, retry_after, bytes), opened),
    ensures
        opened matches Err(e) && e@ == reported@,
{
}

} // verus!
