//! What the answer of the server to a request means.
//!
//! A success gives its JSON document, and `{}` where there is none. Any other status becomes a
//! typed error that keeps the status, the path and the body.
use crate::error::{body_of, path_of, status_of, ErrorModel, PulseError};
use crate::json::{
    empty_object, empty_value, json_from_bytes, json_of, member, member_of, opt_json, read_bytes,
    single, single_value, string_value, Json,
};
use crate::text::{
    chars_of, lemma_last_bytes, lossy_text, parse_u32, read_lossy, read_u32, slice_chars,
    string_of, trim, trimmed,
};
use serde_json::Value;
use vstd::prelude::*;
use vstd::utf8::*;

verus! {

// ----- the body of an answer -------------------------------------------------------------------

/// The body of an answer.
#[derive(Debug)]
pub enum ResponseBody {
    /// No bytes.
    Empty,
    /// A JSON document.
    Json(Value),
    /// Anything else: its text, and why it is no JSON.
    Text { raw: String, error: String },
}

/// The mathematical model of a [`ResponseBody`].
pub enum BodyModel {
    Empty,
    Json(Json),
    Text { raw: Seq<char>, error: Seq<char> },
}

impl View for ResponseBody {
    type V = BodyModel;

    open spec fn view(&self) -> BodyModel {
        match *self {
            ResponseBody::Empty => BodyModel::Empty,
            ResponseBody::Json(v) => BodyModel::Json(json_of(v)),
            ResponseBody::Text { raw, error } => BodyModel::Text { raw: raw@, error: error@ },
        }
    }
}

/// The text that bytes stand for: the one that they encode, and what is made of them where they are
/// not valid UTF-8.
pub open spec fn text_from_bytes(bytes: Seq<u8>) -> Seq<char> {
    if valid_utf8(bytes) {
        decode_utf8(bytes)
    } else {
        lossy_text(bytes)
    }
}

/// The body that bytes stand for.
pub open spec fn body_from_bytes(bytes: Seq<u8>) -> BodyModel {
    if bytes.len() == 0 {
        BodyModel::Empty
    } else {
        match json_from_bytes(bytes) {
            Ok(doc) => BodyModel::Json(doc),
            Err(error) => BodyModel::Text { raw: text_from_bytes(bytes), error },
        }
    }
}

/// Reads the body of an answer.
pub fn read_body(bytes: &[u8]) -> (r: ResponseBody)
    ensures
        r@ == body_from_bytes(bytes@),
        r@ is Text && valid_utf8(bytes@) ==> r@->raw == decode_utf8(bytes@),
{
    if bytes.len() == 0 {
        return ResponseBody::Empty;
    }
    match read_bytes(bytes) {
        Ok(v) => ResponseBody::Json(v),
        Err(error) => ResponseBody::Text { raw: read_lossy(bytes), error },
    }
}

// ----- errors ----------------------------------------------------------------------------------

/// The number of seconds in a `Retry-After` header: a numeral, with white space around it or not.
pub open spec fn header_seconds(header: Option<Seq<char>>) -> Option<u32> {
    match header {
        Some(text) => parse_u32(trim(text)),
        None => None,
    }
}

/// The text of a header that may be absent.
pub open spec fn opt_header(header: Option<&str>) -> Option<Seq<char>> {
    match header {
        Some(text) => Some(text@),
        None => None,
    }
}

/// The number of seconds in a `Retry-After` header.
pub fn parse_retry_after(header: Option<&str>) -> (r: Option<u32>)
    ensures
        r == header_seconds(opt_header(header)),
{
    match header {
        Some(text) => read_u32(&trimmed(text)),
        None => None,
    }
}

/// The wait that an error body advises: its member `retryAfterSeconds`, where that is a whole number
/// of 64 bits. One that 32 bits cannot hold counts as the longest that they can.
pub open spec fn body_seconds(body: Option<Json>) -> Option<u32> {
    match body {
        Some(doc) => match member_of(doc, "retryAfterSeconds"@) {
            Some(Json::Int(n)) => if 0 <= n <= u64::MAX {
                Some(
                    if n <= u32::MAX {
                        n as u32
                    } else {
                        u32::MAX
                    },
                )
            } else {
                None
            },
            _ => None,
        },
        None => None,
    }
}

/// The error that a status stands for. A rate limit carries the wait that the body advises, else
/// the one of the header.
pub open spec fn error_model(
    status: u16,
    path: Seq<char>,
    body: Option<Json>,
    retry_after: Option<u32>,
) -> ErrorModel {
    if status == 401 {
        ErrorModel::Auth { path, body }
    } else if status == 404 {
        ErrorModel::NotFound { path, body }
    } else if status == 400 {
        ErrorModel::Validation { path, body }
    } else if status == 429 {
        ErrorModel::RateLimit {
            path,
            body,
            retry_after_seconds: match body_seconds(body) {
                Some(s) => Some(s),
                None => retry_after,
            },
        }
    } else {
        ErrorModel::Api { status, path, body }
    }
}

fn advised_by_body(body: &Option<Value>) -> (r: Option<u32>)
    ensures
        r == body_seconds(opt_json(*body)),
{
    match body {
        Some(v) => match member(v, "retryAfterSeconds") {
            Some(m) => match m.as_u64() {
                Some(n) => Some(
                    if n <= u32::MAX as u64 {
                        n as u32
                    } else {
                        u32::MAX
                    },
                ),
                None => None,
            },
            None => None,
        },
        None => None,
    }
}

/// The error that a status stands for.
pub fn translate_error(
    status: u16,
    path: &str,
    body: Option<Value>,
    retry_after: Option<u32>,
) -> (r: PulseError)
    ensures
        r@ == error_model(status, path@, opt_json(body), retry_after),
{
    let path = path.to_owned();
    match status {
        401 => PulseError::Auth { path, body },
        404 => PulseError::NotFound { path, body },
        400 => PulseError::Validation { path, body },
        429 => {
            let retry_after_seconds = match advised_by_body(&body) {
                Some(s) => Some(s),
                None => retry_after,
            };
            PulseError::RateLimit { path, body, retry_after_seconds }
        },
        _ => PulseError::Api { status, path, body },
    }
}

// ----- the outcome of a request ----------------------------------------------------------------

/// Whether a status is a success.
pub open spec fn success(status: u16) -> bool {
    200 <= status < 300
}

/// Whether `status` is a success.
pub fn is_success(status: u16) -> (r: bool)
    ensures
        r == success(status),
{
    200 <= status && status < 300
}

/// Whether the body of an answer with `status` is read at all. That of a 204 is not.
pub fn wants_body(status: u16) -> (r: bool)
    ensures
        r == (status != 204),
{
    status != 204
}

/// How many bytes of an error text that is no JSON are kept.
pub const MAX_ERROR_TEXT: usize = 200;

/// A text, cut to the bytes that are kept: its longest beginning that takes no more of them.
pub open spec fn cut(raw: Seq<char>) -> Seq<char>
    decreases raw.len(),
{
    if raw.len() == 0 || encode_utf8(raw).len() <= MAX_ERROR_TEXT {
        raw
    } else {
        cut(raw.drop_last())
    }
}

/// A beginning of a text takes no more bytes than the text.
proof fn lemma_beginning_is_no_longer(raw: Seq<char>, i: int)
    requires
        0 <= i <= raw.len(),
    ensures
        encode_utf8(raw.take(i)).len() <= encode_utf8(raw).len(),
        encode_utf8(raw.take(i)) == encode_utf8(raw).take(
            encode_utf8(raw.take(i)).len() as int,
        ),
    decreases raw.len(),
{
    if i == raw.len() {
        assert(raw.take(i) =~= raw);
        assert(encode_utf8(raw).take(encode_utf8(raw).len() as int) =~= encode_utf8(raw));
    } else {
        lemma_last_bytes(raw);
        let init = raw.drop_last();
        lemma_beginning_is_no_longer(init, i);
        assert(init.take(i) =~= raw.take(i));
        let n = encode_utf8(raw.take(i)).len() as int;
        assert(encode_utf8(init).take(n) =~= encode_utf8(raw).take(n));
    }
}

/// The beginning that fits, and that one more character would make too long, is the cut.
proof fn lemma_cut_is(raw: Seq<char>, i: int)
    requires
        0 <= i <= raw.len(),
        encode_utf8(raw.take(i)).len() <= MAX_ERROR_TEXT,
        i < raw.len() ==> encode_utf8(raw.take(i + 1)).len() > MAX_ERROR_TEXT,
    ensures
        cut(raw) == raw.take(i),
    decreases raw.len(),
{
    if i == raw.len() {
        assert(raw.take(i) =~= raw);
    } else {
        lemma_beginning_is_no_longer(raw, i + 1);
        let init = raw.drop_last();
        assert(init.take(i) =~= raw.take(i));
        if i < init.len() {
            assert(init.take(i + 1) =~= raw.take(i + 1));
        }
        lemma_cut_is(init, i);
    }
}

/// The number of bytes that a character takes.
fn width(c: char) -> (r: usize)
    ensures
        r == encode_scalar(c as u32).len(),
        r <= 4,
{
    proof {
        char_is_scalar(c);
    }
    let u = c as u32;
    if u <= 0x7f {
        1
    } else if u <= 0x7ff {
        2
    } else if u <= 0xffff {
        3
    } else {
        4
    }
}

fn cut_text(raw: String) -> (r: String)
    ensures
        r@ == cut(raw@),
{
    let cs = chars_of(raw.as_str());
    let mut used: usize = 0;
    let mut i: usize = 0;
    assert(cs@.take(0) =~= Seq::empty());
    while i < cs.len()
        invariant
            i <= cs.len(),
            cs@ == raw@,
            used == encode_utf8(cs@.take(i as int)).len(),
            used <= MAX_ERROR_TEXT,
        decreases cs.len() - i,
    {
        let more: usize = used + width(cs[i]);
        proof {
            let longer = cs@.take(i + 1);
            lemma_last_bytes(longer);
            assert(longer.drop_last() =~= cs@.take(i as int));
        }
        if more > MAX_ERROR_TEXT {
            let kept = slice_chars(&cs, 0, i);
            proof {
                assert(kept@ =~= cs@.take(i as int));
                lemma_cut_is(raw@, i as int);
            }
            return string_of(&kept);
        }
        used = more;
        i += 1;
    }
    assert(cs@.take(cs@.len() as int) =~= cs@);
    raw
}

/// The document that an error carries for a body. A text that is no JSON becomes
/// `{"error": text}`, cut.
pub open spec fn error_body(body: BodyModel) -> Option<Json> {
    match body {
        BodyModel::Empty => None,
        BodyModel::Json(doc) => Some(doc),
        BodyModel::Text { raw, .. } => Some(single("error"@, Json::Str(cut(raw)))),
    }
}

/// The outcome of a request that was answered.
pub open spec fn outcome(
    path: Seq<char>,
    status: u16,
    retry_after: Option<Seq<char>>,
    body: BodyModel,
) -> Result<Json, ErrorModel> {
    if status == 204 {
        Ok(empty_object())
    } else if success(status) {
        match body {
            BodyModel::Empty => Ok(empty_object()),
            BodyModel::Json(doc) => Ok(doc),
            BodyModel::Text { error, .. } => Err(ErrorModel::Json(error)),
        }
    } else {
        Err(error_model(status, path, error_body(body), header_seconds(retry_after)))
    }
}

/// The model of what a request gave.
pub open spec fn result_model(r: Result<Value, PulseError>) -> Result<Json, ErrorModel> {
    match r {
        Ok(v) => Ok(json_of(v)),
        Err(e) => Err(e@),
    }
}

/// The outcome of a request to `path`, given its answer: the status, the `Retry-After` header, and
/// the body.
pub fn finish_response(
    path: &str,
    status: u16,
    retry_after: Option<&str>,
    body: ResponseBody,
) -> (r: Result<Value, PulseError>)
    ensures
        result_model(r) == outcome(path@, status, opt_header(retry_after), body@),
{
    if status == 204 {
        return Ok(empty_value());
    }
    if is_success(status) {
        return match body {
            ResponseBody::Empty => Ok(empty_value()),
            ResponseBody::Json(v) => Ok(v),
            ResponseBody::Text { error, .. } => Err(PulseError::Json(error)),
        };
    }
    let header = parse_retry_after(retry_after);
    let document = match body {
        ResponseBody::Empty => None,
        ResponseBody::Json(v) => Some(v),
        ResponseBody::Text { raw, .. } => Some(single_value("error", string_value(cut_text(raw)))),
    };
    Err(translate_error(status, path, document, header))
}

/// The outcome of a request to `path`, given its answer by the bytes of its body.
pub fn interpret_response(
    path: &str,
    status: u16,
    retry_after: Option<&str>,
    bytes: &[u8],
) -> (r: Result<Value, PulseError>)
    ensures
        result_model(r) == outcome(
            path@,
            status,
            opt_header(retry_after),
            body_from_bytes(bytes@),
        ),
{
    finish_response(path, status, retry_after, read_body(bytes))
}

// ----- laws ------------------------------------------------------------------------------------

/// An error keeps the status, the path and the body of the answer that it was made from.
pub proof fn law_error_keeps_its_answer(
    status: u16,
    path: Seq<char>,
    body: Option<Json>,
    retry_after: Option<u32>,
)
    ensures
        status_of(error_model(status, path, body, retry_after)) == Some(status),
        path_of(error_model(status, path, body, retry_after)) == Some(path),
        body_of(error_model(status, path, body, retry_after)) == body,
{
}

/// A request fails with a status exactly where the server answered with that status and it is no
/// success; a success fails only where its body is no JSON.
pub proof fn law_refusal_is_reported(
    path: Seq<char>,
    status: u16,
    retry_after: Option<Seq<char>>,
    body: BodyModel,
)
    ensures
        !success(status) ==> (outcome(path, status, retry_after, body) matches Err(e) && status_of(e)
            == Some(status) && path_of(e) == Some(path)),
        success(status) && !(body is Text) ==> outcome(path, status, retry_after, body) is Ok,
        success(status) ==> (outcome(path, status, retry_after, body) matches Err(e) ==> status_of(e)
            is None),
{
}

/// A refusal whose body is text and no JSON carries that text as its `error`, cut.
pub proof fn law_error_text_is_the_body(
    path: Seq<char>,
    status: u16,
    retry_after: Option<Seq<char>>,
    bytes: Seq<u8>,
)
    requires
        !success(status),
        bytes.len() > 0,
        json_from_bytes(bytes) is Err,
        valid_utf8(bytes),
    ensures
        outcome(path, status, retry_after, body_from_bytes(bytes)) matches Err(e) && body_of(e)
            == Some(single("error"@, Json::Str(cut(decode_utf8(bytes))))),
{
}

/// What is kept of an error text is a beginning of it of at most [`MAX_ERROR_TEXT`] bytes, the
/// longest there is, and all of it where it is no longer.
pub proof fn law_cut_is_the_longest_beginning(raw: Seq<char>)
    ensures
        cut(raw).len() <= raw.len(),
        cut(raw) == raw.take(cut(raw).len() as int),
        encode_utf8(cut(raw)).len() <= MAX_ERROR_TEXT,
        encode_utf8(cut(raw)) == encode_utf8(raw).take(encode_utf8(cut(raw)).len() as int),
        forall|i: int|
            cut(raw).len() < i <= raw.len() ==> encode_utf8(#[trigger] raw.take(i)).len()
                > MAX_ERROR_TEXT,
        encode_utf8(raw).len() <= MAX_ERROR_TEXT ==> cut(raw) == raw,
    decreases raw.len(),
{
    if raw.len() == 0 || encode_utf8(raw).len() <= MAX_ERROR_TEXT {
        assert(raw.take(raw.len() as int) =~= raw);
        lemma_beginning_is_no_longer(raw, raw.len() as int);
    } else {
        let init = raw.drop_last();
        law_cut_is_the_longest_beginning(init);
        let k = cut(raw).len() as int;
        assert(init.take(k) =~= raw.take(k));
        lemma_beginning_is_no_longer(raw, k);
        assert forall|i: int| k < i <= raw.len() implies encode_utf8(#[trigger] raw.take(i)).len()
            > MAX_ERROR_TEXT by {
            if i == raw.len() {
                assert(raw.take(i) =~= raw);
            } else {
                assert(init.take(i) =~= raw.take(i));
            }
        }
    }
}

} // verus!
