//! The exchange that hands a remote download to the backend.

use crate::cloudreve::request::{
    outcome_view,
    request_error_text,
    ApiRequest,
    ApiRequestView,
    Method,
    RequestError,
    RequestErrorView,
};
use crate::cloudreve::{bearer_header, ClientView, CloudreveClient};
use crate::json::{lemma_array_value, lemma_object_value, members_of, values_of, Json, JsonValue};
use crate::text::join;
use vstd::prelude::*;

verus! {

/// Why a remote download was not taken on.
#[derive(Debug, PartialEq)]
pub enum SubmitError {
    /// No destination path is configured.
    NoDestination,
    /// The exchange failed.
    Request(RequestError),
}

/// The mathematical value of a [`SubmitError`].
pub enum SubmitErrorView {
    NoDestination,
    Request(RequestErrorView),
}

impl View for SubmitError {
    type V = SubmitErrorView;

    open spec fn view(&self) -> SubmitErrorView {
        match self {
            SubmitError::NoDestination => SubmitErrorView::NoDestination,
            SubmitError::Request(e) => SubmitErrorView::Request(e@),
        }
    }
}

/// The body that asks for `url` to be fetched into `dst`.
pub open spec fn download_body(dst: Seq<char>, url: Seq<char>) -> JsonValue {
    JsonValue::Object(
        seq![("dst"@, JsonValue::Str(dst)), ("src"@, JsonValue::Array(seq![JsonValue::Str(url)]))],
    )
}

/// The request that submits `url` for download, where a destination is
/// configured.
pub open spec fn download_request(
    client: ClientView,
    url: Seq<char>,
    dst: Option<Seq<char>>,
) -> Result<
    ApiRequestView,
    SubmitErrorView,
> {
    match dst {
        Some(d) => Ok(
            ApiRequestView {
                method: Method::Post,
                url: client.base_url + "/workflow/download"@,
                authorization: bearer_header(client.credential.access_token),
                query: Seq::empty(),
                body: Some(download_body(d, url)),
            },
        ),
        None => Err(SubmitErrorView::NoDestination),
    }
}

/// The value of a submission's request or the error in its place.
pub open spec fn submission_view(r: Result<ApiRequest, SubmitError>) -> Result<
    ApiRequestView,
    SubmitErrorView,
> {
    match r {
        Ok(q) => Ok(q@),
        Err(e) => Err(e@),
    }
}

/// What a submission settled as `outcome` yields: the backend's payload,
/// or the error.
pub open spec fn submitted(outcome: Result<JsonValue, RequestErrorView>) -> Result<
    JsonValue,
    SubmitErrorView,
> {
    match outcome {
        Ok(data) => Ok(data),
        Err(e) => Err(SubmitErrorView::Request(e)),
    }
}

/// The value of a submission's result.
pub open spec fn submitted_view(
    r: Result<Json, SubmitError>,
) -> Result<JsonValue, SubmitErrorView> {
    match r {
        Ok(data) => Ok(data@),
        Err(e) => Err(e@),
    }
}

impl CloudreveClient {
    /// The request that submits `url` for download into `dst`. Without a
    /// destination there is nothing to send.
    pub fn remote_download_request(&self, url: &str, dst: Option<&str>) -> (r: Result<
        ApiRequest,
        SubmitError,
    >)
        ensures
            submission_view(r) == download_request(
                self@,
                url@,
                match dst {
                    Some(d) => Some(d@),
                    None => None,
                },
            ),
    {
        let dst = match dst {
            Some(d) => d,
            None => {
                return Err(SubmitError::NoDestination);
            },
        };
        let mut sources: Vec<Json> = Vec::new();
        sources.push(Json::Str(String::from_str(url)));
        let mut members: Vec<(String, Json)> = Vec::new();
        members.push((String::from_str("dst"), Json::Str(String::from_str(dst))));
        members.push((String::from_str("src"), Json::Array(sources)));
        proof {
            lemma_array_value(sources);
            assert(values_of(sources@) =~= seq![JsonValue::Str(url@)]);
            lemma_object_value(members);
            assert(members_of(members@) =~= seq![
                ("dst"@, JsonValue::Str(dst@)),
                ("src"@, JsonValue::Array(seq![JsonValue::Str(url@)])),
            ]);
        }
        let mut r = self.request_builder(Method::Post, "/workflow/download");
        r.body = Some(Json::Object(members));
        Ok(r)
    }

    /// Settles a submission from its decoded reply. The backend hands no
    /// handle back: the task is found again by its source address alone.
    pub fn remote_download(&self, outcome: Result<Json, RequestError>) -> (r: Result<
        Json,
        SubmitError,
    >)
        ensures
            submitted_view(r) == submitted(outcome_view(outcome)),
    {
        match outcome {
            Ok(data) => Ok(data),
            Err(e) => Err(SubmitError::Request(e)),
        }
    }
}

/// A submission error as a line of text.
pub open spec fn submit_error_text(e: SubmitErrorView) -> Seq<char> {
    match e {
        SubmitErrorView::NoDestination => "No download destination configured"@,
        SubmitErrorView::Request(e) => "Failed to download file: "@ + request_error_text(e),
    }
}

impl SubmitError {
    /// The error as a line of text.
    pub fn message(&self) -> (r: String)
        ensures
            r@ == submit_error_text(self@),
    {
        match self {
            SubmitError::NoDestination => String::from_str("No download destination configured"),
            SubmitError::Request(e) => {
                let inner = e.message();
                join("Failed to download file: ", inner.as_str())
            },
        }
    }
}

} // verus!
