//! The error of every client operation.
//!
//! Every HTTP error of the Pulse server becomes one variant of [`PulseError`]. Callers match on it,
//! or ask for its category (`is_auth_error`, `is_not_found` and so on).
use crate::json::{json_of, opt_json, text_member, text_member_of, Json};
use crate::text::{decimal, decimal_text};
use serde_json::Value;
use vstd::prelude::*;

verus! {

/// The single error type of the client.
#[derive(Debug)]
pub enum PulseError {
    /// 401: the token is invalid, missing or expired.
    Auth { path: String, body: Option<Value> },
    /// 404: the resource does not exist.
    NotFound { path: String, body: Option<Value> },
    /// 400: the request body is malformed.
    Validation { path: String, body: Option<Value> },
    /// 429: a rate limit was hit. Carries the wait that the server advised, from the
    /// `retryAfterSeconds` field of the body or the `Retry-After` header; `None` where it gave
    /// no hint.
    RateLimit { path: String, body: Option<Value>, retry_after_seconds: Option<u32> },
    /// Any other status that is no success.
    Api { status: u16, path: String, body: Option<Value> },
    /// The transport failed (connection refused, timeout, DNS, TLS, an unreadable file), by the
    /// description of the failure.
    Transport(String),
    /// JSON could not be read or written, by the description of the failure.
    Json(String),
    /// An authenticated endpoint was called without a token. Nothing was sent, so there is no body.
    NoToken { path: String },
    /// The configuration is invalid (an empty base URL, for instance).
    InvalidConfig(String),
    /// A duplex channel failed, by the description of the cause.
    Duplex(String),
}

/// The mathematical model of a [`PulseError`].
pub enum ErrorModel {
    Auth { path: Seq<char>, body: Option<Json> },
    NotFound { path: Seq<char>, body: Option<Json> },
    Validation { path: Seq<char>, body: Option<Json> },
    RateLimit { path: Seq<char>, body: Option<Json>, retry_after_seconds: Option<u32> },
    Api { status: u16, path: Seq<char>, body: Option<Json> },
    Transport(Seq<char>),
    Json(Seq<char>),
    NoToken { path: Seq<char> },
    InvalidConfig(Seq<char>),
    Duplex(Seq<char>),
}

impl View for PulseError {
    type V = ErrorModel;

    open spec fn view(&self) -> ErrorModel {
        match *self {
            PulseError::Auth { path, body } => ErrorModel::Auth { path: path@, body: opt_json(body) },
            PulseError::NotFound { path, body } => ErrorModel::NotFound {
                path: path@,
                body: opt_json(body),
            },
            PulseError::Validation { path, body } => ErrorModel::Validation {
                path: path@,
                body: opt_json(body),
            },
            PulseError::RateLimit { path, body, retry_after_seconds } => ErrorModel::RateLimit {
                path: path@,
                body: opt_json(body),
                retry_after_seconds,
            },
            PulseError::Api { status, path, body } => ErrorModel::Api {
                status,
                path: path@,
                body: opt_json(body),
            },
            PulseError::Transport(text) => ErrorModel::Transport(text@),
            PulseError::Json(text) => ErrorModel::Json(text@),
            PulseError::NoToken { path } => ErrorModel::NoToken { path: path@ },
            PulseError::InvalidConfig(text) => ErrorModel::InvalidConfig(text@),
            PulseError::Duplex(text) => ErrorModel::Duplex(text@),
        }
    }
}

/// The status that an error carries.
pub open spec fn status_of(e: ErrorModel) -> Option<u16> {
    match e {
        ErrorModel::Auth { .. } => Some(401u16),
        ErrorModel::NotFound { .. } => Some(404u16),
        ErrorModel::Validation { .. } => Some(400u16),
        ErrorModel::RateLimit { .. } => Some(429u16),
        ErrorModel::Api { status, .. } => Some(status),
        _ => None,
    }
}

/// The body that the server sent with an error.
pub open spec fn body_of(e: ErrorModel) -> Option<Json> {
    match e {
        ErrorModel::Auth { body, .. } => body,
        ErrorModel::NotFound { body, .. } => body,
        ErrorModel::Validation { body, .. } => body,
        ErrorModel::RateLimit { body, .. } => body,
        ErrorModel::Api { body, .. } => body,
        _ => None,
    }
}

/// The path of the request that failed.
pub open spec fn path_of(e: ErrorModel) -> Option<Seq<char>> {
    match e {
        ErrorModel::Auth { path, .. } => Some(path),
        ErrorModel::NotFound { path, .. } => Some(path),
        ErrorModel::Validation { path, .. } => Some(path),
        ErrorModel::RateLimit { path, .. } => Some(path),
        ErrorModel::Api { path, .. } => Some(path),
        ErrorModel::NoToken { path } => Some(path),
        _ => None,
    }
}

/// What an error body says went wrong: its `error`, else its `errorMessage`, else its `message`,
/// the first of them that is a string.
pub open spec fn reason_of(body: Json) -> Option<Seq<char>> {
    match text_member_of(body, "error"@) {
        Some(text) => Some(text),
        None => match text_member_of(body, "errorMessage"@) {
            Some(text) => Some(text),
            None => text_member_of(body, "message"@),
        },
    }
}

/// The one-line description of an HTTP error.
pub open spec fn http_text(status: u16, path: Seq<char>, body: Option<Json>) -> Seq<char> {
    let head = "pulse: HTTP "@ + decimal(status as nat) + " from "@ + path;
    match body {
        Some(doc) => match reason_of(doc) {
            Some(reason) => head + " — "@ + reason,
            None => head,
        },
        None => head,
    }
}

/// The one-line description of an error.
pub open spec fn error_text(e: ErrorModel) -> Seq<char> {
    match e {
        ErrorModel::Auth { path, body } => http_text(401, path, body),
        ErrorModel::NotFound { path, body } => http_text(404, path, body),
        ErrorModel::Validation { path, body } => http_text(400, path, body),
        ErrorModel::RateLimit { path, body, .. } => http_text(429, path, body),
        ErrorModel::Api { status, path, body } => http_text(status, path, body),
        ErrorModel::Transport(text) => "pulse: HTTP transport failure — "@ + text,
        ErrorModel::Json(text) => "pulse: JSON encode/decode failure — "@ + text,
        ErrorModel::NoToken { path } => "pulse: no token set for "@ + path
            + " — call client.auth().login(...).await first or pass .token(...) to the builder"@,
        ErrorModel::InvalidConfig(text) => "pulse: invalid config — "@ + text,
        ErrorModel::Duplex(text) => "pulse: duplex channel failure — "@ + text,
    }
}

fn format_http(status: u16, path: &str, body: &Option<Value>) -> (r: String)
    ensures
        r@ == http_text(status, path@, opt_json(*body)),
{
    let mut msg = "pulse: HTTP ".to_owned().concat(decimal_text(status as u64).as_str()).concat(
        " from ",
    ).concat(path);
    if let Some(v) = body {
        let mut reason = text_member(v, "error");
        if reason.is_none() {
            reason = text_member(v, "errorMessage");
        }
        if reason.is_none() {
            reason = text_member(v, "message");
        }
        if let Some(text) = reason {
            msg.append(" — ");
            msg.append(text);
        }
    }
    msg
}

impl PulseError {
    /// Whether the token was refused, or there was none.
    pub fn is_auth_error(&self) -> (r: bool)
        ensures
            r == (self is Auth || self is NoToken),
    {
        matches!(self, PulseError::Auth { .. } | PulseError::NoToken { .. })
    }

    /// Whether the resource does not exist.
    pub fn is_not_found(&self) -> (r: bool)
        ensures
            r == (self is NotFound),
    {
        matches!(self, PulseError::NotFound { .. })
    }

    /// Whether the request was malformed.
    pub fn is_validation_error(&self) -> (r: bool)
        ensures
            r == (self is Validation),
    {
        matches!(self, PulseError::Validation { .. })
    }

    /// Whether a rate limit was hit.
    pub fn is_rate_limited(&self) -> (r: bool)
        ensures
            r == (self is RateLimit),
    {
        matches!(self, PulseError::RateLimit { .. })
    }

    /// The HTTP status, where the error carries one. `None` for transport, JSON, no-token and
    /// configuration errors.
    pub fn status_code(&self) -> (r: Option<u16>)
        ensures
            r == status_of(self@),
    {
        match self {
            PulseError::Auth { .. } => Some(401),
            PulseError::NotFound { .. } => Some(404),
            PulseError::Validation { .. } => Some(400),
            PulseError::RateLimit { .. } => Some(429),
            PulseError::Api { status, .. } => Some(*status),
            _ => None,
        }
    }

    /// The JSON body that the server sent, if any.
    pub fn body(&self) -> (r: Option<&Value>)
        ensures
            match r {
                Some(v) => body_of(self@) == Some(json_of(*v)),
                None => body_of(self@) is None,
            },
    {
        match self {
            PulseError::Auth { body, .. } => body.as_ref(),
            PulseError::NotFound { body, .. } => body.as_ref(),
            PulseError::Validation { body, .. } => body.as_ref(),
            PulseError::RateLimit { body, .. } => body.as_ref(),
            PulseError::Api { body, .. } => body.as_ref(),
            _ => None,
        }
    }

    /// The path of the request that failed, if there was one.
    pub fn path(&self) -> (r: Option<&str>)
        ensures
            match r {
                Some(p) => path_of(self@) == Some(p@),
                None => path_of(self@) is None,
            },
    {
        match self {
            PulseError::Auth { path, .. } => Some(path.as_str()),
            PulseError::NotFound { path, .. } => Some(path.as_str()),
            PulseError::Validation { path, .. } => Some(path.as_str()),
            PulseError::RateLimit { path, .. } => Some(path.as_str()),
            PulseError::Api { path, .. } => Some(path.as_str()),
            PulseError::NoToken { path } => Some(path.as_str()),
            _ => None,
        }
    }

    /// The one-line description of the error.
    pub fn message(&self) -> (r: String)
        ensures
            r@ == error_text(self@),
    {
        match self {
            PulseError::Auth { path, body } => format_http(401, path.as_str(), body),
            PulseError::NotFound { path, body } => format_http(404, path.as_str(), body),
            PulseError::Validation { path, body } => format_http(400, path.as_str(), body),
            PulseError::RateLimit { path, body, .. } => format_http(429, path.as_str(), body),
            PulseError::Api { status, path, body } => format_http(*status, path.as_str(), body),
            PulseError::Transport(text) => "pulse: HTTP transport failure — ".to_owned().concat(
                text.as_str(),
            ),
            PulseError::Json(text) => "pulse: JSON encode/decode failure — ".to_owned().concat(
                text.as_str(),
            ),
            PulseError::NoToken { path } => "pulse: no token set for ".to_owned().concat(
                path.as_str(),
            ).concat(
                " — call client.auth().login(...).await first or pass .token(...) to the builder",
            ),
            PulseError::InvalidConfig(text) => "pulse: invalid config — ".to_owned().concat(
                text.as_str(),
            ),
            PulseError::Duplex(text) => "pulse: duplex channel failure — ".to_owned().concat(
                text.as_str(),
            ),
        }
    }
}

} // verus!
