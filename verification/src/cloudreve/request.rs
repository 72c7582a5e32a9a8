//! The transport's two halves: the description of a request to send, and
//! the reading of what came back into the common response envelope.

use crate::json::{parse_json, parsed_json, Json, JsonValue};
use crate::text::join;
use vstd::prelude::*;

verus! {

/// The HTTP methods the backend is called with.
#[derive(Clone, Copy, Debug, PartialEq, Eq, Structural)]
pub enum Method {
    Get,
    Post,
    Put,
}

/// A request for the caller to send.
#[derive(Debug, PartialEq)]
pub struct ApiRequest {
    pub method: Method,
    /// The full address: the API root followed by the endpoint's path.
    pub url: String,
    /// The value of the `Authorization` header, where one is to be sent.
    pub authorization: Option<String>,
    /// Query parameters, in the order they are attached.
    pub query: Vec<(String, String)>,
    /// The JSON body, where the request has one.
    pub body: Option<Json>,
}

/// The mathematical value of an [`ApiRequest`].
pub struct ApiRequestView {
    pub method: Method,
    pub url: Seq<char>,
    pub authorization: Option<Seq<char>>,
    pub query: Seq<(Seq<char>, Seq<char>)>,
    pub body: Option<JsonValue>,
}

/// The text held by an optional string.
pub open spec fn opt_text(o: Option<String>) -> Option<Seq<char>> {
    match o {
        Some(s) => Some(s@),
        None => None,
    }
}

/// The value held by an optional document.
pub open spec fn opt_value(o: Option<Json>) -> Option<JsonValue> {
    match o {
        Some(j) => Some(j@),
        None => None,
    }
}

/// The texts of a run of name and value pairs.
pub open spec fn pairs_of(q: Seq<(String, String)>) -> Seq<(Seq<char>, Seq<char>)> {
    Seq::new(q.len(), |i: int| (q[i].0@, q[i].1@))
}

impl View for ApiRequest {
    type V = ApiRequestView;

    open spec fn view(&self) -> ApiRequestView {
        ApiRequestView {
            method: self.method,
            url: self.url@,
            authorization: opt_text(self.authorization),
            query: pairs_of(self.query@),
            body: opt_value(self.body),
        }
    }
}

/// What the caller got when it sent a request.
#[derive(Debug, PartialEq)]
pub enum Reply {
    /// No response arrived; the text says why.
    Unreachable(String),
    /// A response arrived, with this status and body.
    Received { status: u16, body: String },
}

/// The mathematical value of a [`Reply`].
pub enum ReplyView {
    Unreachable(Seq<char>),
    Received { status: u16, body: Seq<char> },
}

impl View for Reply {
    type V = ReplyView;

    open spec fn view(&self) -> ReplyView {
        match self {
            Reply::Unreachable(reason) => ReplyView::Unreachable(reason@),
            Reply::Received { status, body } => ReplyView::Received {
                status: *status,
                body: body@,
            },
        }
    }
}

/// Why a request produced no payload.
#[derive(Debug, PartialEq)]
pub enum RequestError {
    /// The network failed (no status), or the status was outside 200..=299
    /// and the body held no envelope. `detail` is the reason or the body.
    Transport { status: Option<u16>, detail: String },
    /// The backend answered with a non-zero code.
    Api { code: i32, msg: String },
    /// A successful status came with a body that is no envelope.
    Protocol { body: String },
}

/// The mathematical value of a [`RequestError`].
pub enum RequestErrorView {
    Transport { status: Option<u16>, detail: Seq<char> },
    Api { code: i32, msg: Seq<char> },
    Protocol { body: Seq<char> },
}

impl View for RequestError {
    type V = RequestErrorView;

    open spec fn view(&self) -> RequestErrorView {
        match self {
            RequestError::Transport { status, detail } => RequestErrorView::Transport {
                status: *status,
                detail: detail@,
            },
            RequestError::Api { code, msg } => RequestErrorView::Api { code: *code, msg: msg@ },
            RequestError::Protocol { body } => RequestErrorView::Protocol { body: body@ },
        }
    }
}

/// A request error as a line of text.
pub open spec fn request_error_text(e: RequestErrorView) -> Seq<char> {
    match e {
        RequestErrorView::Transport { status, detail } => detail,
        RequestErrorView::Api { code, msg } => msg,
        RequestErrorView::Protocol { body } => "Failed to parse response: "@ + body,
    }
}

/// The value of a decoded reply: the payload, or the error.
pub open spec fn outcome_view(r: Result<Json, RequestError>) -> Result<
    JsonValue,
    RequestErrorView,
> {
    match r {
        Ok(j) => Ok(j@),
        Err(e) => Err(e@),
    }
}

/// The envelope every backend response is wrapped in.
pub struct EnvelopeView {
    pub code: i32,
    pub msg: Option<Seq<char>>,
    pub data: Option<JsonValue>,
}

/// A member that is absent or `null` counts as not given.
pub open spec fn given(m: Option<JsonValue>) -> Option<JsonValue> {
    match m {
        Some(JsonValue::Null) => None,
        other => other,
    }
}

/// Reads a document as an envelope: an object whose `code` is an integer of
/// 32 bits, whose `msg`, if given, is a string, and whose `data` is free.
pub open spec fn envelope_of(j: JsonValue) -> Option<EnvelopeView> {
    match j.member("code"@) {
        Some(c) => match c.signed() {
            Some(code) => if i32::MIN <= code <= i32::MAX {
                match given(j.member("msg"@)) {
                    None => Some(
                        EnvelopeView {
                            code: code as i32,
                            msg: None,
                            data: given(j.member("data"@)),
                        },
                    ),
                    Some(JsonValue::Str(m)) => Some(
                        EnvelopeView {
                            code: code as i32,
                            msg: Some(m),
                            data: given(j.member("data"@)),
                        },
                    ),
                    Some(_) => None,
                }
            } else {
                None
            },
            None => None,
        },
        None => None,
    }
}

/// What a response with this status and body amounts to, given what the
/// body decoded to.
///
/// An envelope with code zero yields its payload (`null` where it has
/// none); one with another code is the backend's own error, with its
/// message. Without an envelope, a status in 200..=299 is a protocol
/// error and any other a transport error, each carrying the raw body.
pub open spec fn response_outcome(
    status: u16,
    body: Seq<char>,
    decoded: Option<JsonValue>,
) -> Result<
    JsonValue,
    RequestErrorView,
> {
    let envelope = match decoded {
        Some(j) => envelope_of(j),
        None => None,
    };
    match envelope {
        Some(e) => if e.code == 0 {
            Ok(
                match e.data {
                    Some(d) => d,
                    None => JsonValue::Null,
                },
            )
        } else {
            Err(
                RequestErrorView::Api {
                    code: e.code,
                    msg: match e.msg {
                        Some(m) => m,
                        None => Seq::empty(),
                    },
                },
            )
        },
        None => if 200 <= status <= 299 {
            Err(RequestErrorView::Protocol { body })
        } else {
            Err(RequestErrorView::Transport { status: Some(status), detail: body })
        },
    }
}

/// What a reply amounts to, given what its body decoded to.
pub open spec fn reply_outcome(reply: ReplyView, decoded: Option<JsonValue>) -> Result<
    JsonValue,
    RequestErrorView,
> {
    match reply {
        ReplyView::Unreachable(reason) => Err(
            RequestErrorView::Transport { status: None, detail: reason },
        ),
        ReplyView::Received { status, body } => response_outcome(status, body, decoded),
    }
}

/// The body of a reply, empty where none arrived.
pub open spec fn reply_body(reply: ReplyView) -> Seq<char> {
    match reply {
        ReplyView::Unreachable(_) => Seq::empty(),
        ReplyView::Received { status, body } => body,
    }
}

/// A response envelope read from a document, borrowing from it.
pub struct Envelope<'a> {
    pub code: i32,
    pub msg: Option<&'a str>,
    pub data: Option<&'a Json>,
}

impl<'a> View for Envelope<'a> {
    type V = EnvelopeView;

    open spec fn view(&self) -> EnvelopeView {
        EnvelopeView {
            code: self.code,
            msg: match self.msg {
                Some(m) => Some(m@),
                None => None,
            },
            data: match self.data {
                Some(d) => Some(d@),
                None => None,
            },
        }
    }
}

/// A member that is absent or `null` counts as not given.
pub fn given_member<'a>(j: &'a Json, key: &str) -> (r: Option<&'a Json>)
    ensures
        r matches Some(v) ==> given(j@.member(key@)) == Some(v@),
        r is None ==> given(j@.member(key@)) is None,
{
    match j.get(key) {
        Some(Json::Null) => None,
        other => other,
    }
}

/// Reads a document as an envelope.
pub fn read_envelope<'a>(j: &'a Json) -> (r: Option<Envelope<'a>>)
    ensures
        r matches Some(e) ==> envelope_of(j@) == Some(e@),
        r is None ==> envelope_of(j@) is None,
{
    let code = match j.get("code") {
        Some(c) => match c.as_i64() {
            Some(code) => code,
            None => {
                return None;
            },
        },
        None => {
            return None;
        },
    };
    if code < -2_147_483_648 || code > 2_147_483_647 {
        return None;
    }
    let data = given_member(j, "data");
    match given_member(j, "msg") {
        None => Some(Envelope { code: code as i32, msg: None, data }),
        Some(Json::Str(m)) => Some(Envelope { code: code as i32, msg: Some(m.as_str()), data }),
        Some(_) => None,
    }
}

/// Settles a response from its status, its body and what the body decoded
/// to.
pub fn settle_response(status: u16, body: &str, decoded: Option<Json>) -> (r: Result<
    Json,
    RequestError,
>)
    ensures
        outcome_view(r) == response_outcome(status, body@, opt_value(decoded)),
{
    let envelope = match &decoded {
        Some(j) => read_envelope(j),
        None => None,
    };
    match envelope {
        Some(e) => {
            if e.code == 0 {
                match e.data {
                    Some(d) => Ok(d.clone()),
                    None => Ok(Json::Null),
                }
            } else {
                let msg = match e.msg {
                    Some(m) => String::from_str(m),
                    None => String::new(),
                };
                Err(RequestError::Api { code: e.code, msg })
            }
        },
        None => {
            if 200 <= status && status <= 299 {
                Err(RequestError::Protocol { body: String::from_str(body) })
            } else {
                Err(
                    RequestError::Transport {
                        status: Some(status),
                        detail: String::from_str(body),
                    },
                )
            }
        },
    }
}

/// Reads a reply into the payload it carries or the error it stands for.
/// The body is decoded as JSON; everything after that follows
/// [`reply_outcome`].
pub fn decode_reply(reply: &Reply) -> (r: Result<Json, RequestError>)
    ensures
        outcome_view(r) == reply_outcome(reply@, parsed_json(reply_body(reply@))),
{
    match reply {
        Reply::Unreachable(reason) => Err(
            RequestError::Transport { status: None, detail: reason.clone() },
        ),
        Reply::Received { status, body } => {
            let decoded = parse_json(body.as_str());
            settle_response(*status, body.as_str(), decoded)
        },
    }
}

impl RequestError {
    /// The error as a line of text.
    pub fn message(&self) -> (r: String)
        ensures
            r@ == request_error_text(self@),
    {
        match self {
            RequestError::Transport { status, detail } => detail.clone(),
            RequestError::Api { code, msg } => msg.clone(),
            RequestError::Protocol { body } => join("Failed to parse response: ", body.as_str()),
        }
    }
}

} // verus!
