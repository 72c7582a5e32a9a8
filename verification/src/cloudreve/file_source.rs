//! The exchange that resolves a file to a direct, time-limited address.

use crate::cloudreve::request::{
    outcome_view,
    request_error_text,
    ApiRequest,
    ApiRequestView,
    Method,
    RequestError,
    RequestErrorView,
};
use crate::cloudreve::{bearer_header, ClientView, CloudreveClient};
use crate::json::{lemma_array_value, lemma_object_value, members_of, values_of, Json, JsonValue};
use crate::text::join;
use vstd::prelude::*;

verus! {

/// Why a file's address could not be had.
#[derive(Debug, PartialEq)]
pub enum SourceError {
    /// The payload names no address.
    NoSource,
    /// The exchange failed.
    Request(RequestError),
}

/// The mathematical value of a [`SourceError`].
pub enum SourceErrorView {
    NoSource,
    Request(RequestErrorView),
}

impl View for SourceError {
    type V = SourceErrorView;

    open spec fn view(&self) -> SourceErrorView {
        match self {
            SourceError::NoSource => SourceErrorView::NoSource,
            SourceError::Request(e) => SourceErrorView::Request(e@),
        }
    }
}

/// The request that asks for the address of `uri`.
pub open spec fn source_request(client: ClientView, uri: Seq<char>) -> ApiRequestView {
    ApiRequestView {
        method: Method::Put,
        url: client.base_url + "/file/source"@,
        authorization: bearer_header(client.credential.access_token),
        query: Seq::empty(),
        body: Some(
            JsonValue::Object(seq![("uris"@, JsonValue::Array(seq![JsonValue::Str(uri)]))]),
        ),
    }
}

/// The address that a payload names: the string `url` of the first record
/// of the array that the payload is.
pub open spec fn first_source(data: JsonValue) -> Option<Seq<char>> {
    match data.items() {
        Some(records) => if records.len() > 0 {
            records[0].text_member("url"@)
        } else {
            None
        },
        None => None,
    }
}

/// What the exchange settled as `outcome` yields: the address, or the
/// error.
pub open spec fn resolved(outcome: Result<JsonValue, RequestErrorView>) -> Result<
    Seq<char>,
    SourceErrorView,
> {
    match outcome {
        Ok(data) => match first_source(data) {
            Some(url) => Ok(url),
            None => Err(SourceErrorView::NoSource),
        },
        Err(e) => Err(SourceErrorView::Request(e)),
    }
}

/// The value of the exchange's result.
pub open spec fn resolved_view(
    r: Result<String, SourceError>,
) -> Result<Seq<char>, SourceErrorView> {
    match r {
        Ok(url) => Ok(url@),
        Err(e) => Err(e@),
    }
}

impl CloudreveClient {
    /// The request that asks for the address of `uri`.
    pub fn list_file_source_request(&self, uri: &str) -> (r: ApiRequest)
        ensures
            r@ == source_request(self@, uri@),
    {
        let mut uris: Vec<Json> = Vec::new();
        uris.push(Json::Str(String::from_str(uri)));
        let mut members: Vec<(String, Json)> = Vec::new();
        members.push((String::from_str("uris"), Json::Array(uris)));
        proof {
            lemma_array_value(uris);
            assert(values_of(uris@) =~= seq![JsonValue::Str(uri@)]);
            lemma_object_value(members);
            assert(members_of(members@) =~= seq![
                ("uris"@, JsonValue::Array(seq![JsonValue::Str(uri@)])),
            ]);
        }
        let mut r = self.request_builder(Method::Put, "/file/source");
        r.body = Some(Json::Object(members));
        r
    }

    /// Settles the exchange from its decoded reply: the address of the
    /// first record, or the error.
    pub fn list_file_source(&self, outcome: Result<Json, RequestError>) -> (r: Result<
        String,
        SourceError,
    >)
        ensures
            resolved_view(r) == resolved(outcome_view(outcome)),
    {
        match outcome {
            Ok(data) => {
                let url = match data.as_array() {
                    Some(records) => if records.len() > 0 {
                        records[0].get_str("url")
                    } else {
                        None
                    },
                    None => None,
                };
                match url {
                    Some(u) => Ok(String::from_str(u)),
                    None => Err(SourceError::NoSource),
                }
            },
            Err(e) => Err(SourceError::Request(e)),
        }
    }
}

/// A resolution error as a line of text.
pub open spec fn source_error_text(e: SourceErrorView) -> Seq<char> {
    match e {
        SourceErrorView::NoSource => "No file source found"@,
        SourceErrorView::Request(e) => "Failed to list files: "@ + request_error_text(e),
    }
}

impl SourceError {
    /// The error as a line of text.
    pub fn message(&self) -> (r: String)
        ensures
            r@ == source_error_text(self@),
    {
        match self {
            SourceError::NoSource => String::from_str("No file source found"),
            SourceError::Request(e) => {
                let inner = e.message();
                join("Failed to list files: ", inner.as_str())
            },
        }
    }
}

} // verus!
