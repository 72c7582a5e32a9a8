//! The directory-listing exchange: a builder for the request, and the
//! reading of a listing payload.

use crate::cloudreve::request::{
    opt_text,
    outcome_view,
    request_error_text,
    ApiRequest,
    ApiRequestView,
    Method,
    RequestError,
    RequestErrorView,
};
use crate::cloudreve::{bearer_header, text_or, ClientView, CloudreveClient};
use crate::json::{Json, JsonValue};
use crate::text::{decimal, decimal_string};
use vstd::prelude::*;

verus! {

/// The root that is browsed where no other is configured.
pub open spec fn fallback_root() -> Seq<char> {
    "cloudreve://my"@
}

/// The page size asked for where the builder names none.
pub const DEFAULT_PAGE_SIZE: u32 = 50;

/// The backend's code for an object that does not exist: `CodeNotFound`
/// in the error table of Cloudreve's response serializer.
pub const CODE_NOT_FOUND: i32 = 404;

/// The backend's code for a path that does not exist:
/// `CodeParentNotExist` in the same table, which Cloudreve's file system
/// answers with when a path cannot be walked to its end.
pub const CODE_PATH_NOT_EXIST: i32 = 40016;

/// Whether an error code of the backend reports a missing path. The two
/// codes are the backend's own; no other code is read as not found.
pub open spec fn reports_not_found(code: i32) -> bool {
    code == CODE_NOT_FOUND || code == CODE_PATH_NOT_EXIST
}

/// Why a listing could not be had.
#[derive(Debug, PartialEq)]
pub enum ListError {
    /// The backend knows no such path; the code and the message are the
    /// backend's.
    NotFound { code: i32, msg: String },
    /// The payload is not a listing.
    Malformed,
    /// The exchange failed otherwise.
    Request(RequestError),
}

/// The mathematical value of a [`ListError`].
pub enum ListErrorView {
    NotFound { code: i32, msg: Seq<char> },
    Malformed,
    Request(RequestErrorView),
}

impl View for ListError {
    type V = ListErrorView;

    open spec fn view(&self) -> ListErrorView {
        match self {
            ListError::NotFound { code, msg } => ListErrorView::NotFound { code: *code, msg: msg@ },
            ListError::Malformed => ListErrorView::Malformed,
            ListError::Request(e) => ListErrorView::Request(e@),
        }
    }
}

/// The root to browse: the configured one, or the fixed fallback.
pub open spec fn browse_root_of(configured: Option<Seq<char>>) -> Seq<char> {
    text_or(configured, fallback_root())
}

/// The path a listing asks for: the one named, or the browse root where
/// none is.
pub open spec fn effective_uri(uri: Seq<char>, configured: Option<Seq<char>>) -> Seq<char> {
    if uri.len() == 0 {
        browse_root_of(configured)
    } else {
        uri
    }
}

/// The request that lists `uri`.
pub open spec fn listing_request(
    client: ClientView,
    uri: Seq<char>,
    page: u32,
    page_size: u32,
    token: Seq<char>,
) -> ApiRequestView {
    ApiRequestView {
        method: Method::Get,
        url: client.base_url + "/file"@,
        authorization: bearer_header(client.credential.access_token),
        query: seq![
            ("uri"@, uri),
            ("page"@, decimal(page as nat)),
            ("page_size"@, decimal(page_size as nat)),
            ("next_page_token"@, token),
        ],
        body: None,
    }
}

/// The continuation token a listing payload carries: the string
/// `next_token` under `pagination`, or failing that the string
/// `next_page_token` there.
pub open spec fn continuation(data: JsonValue) -> Option<Seq<char>> {
    match data.member("pagination"@) {
        Some(p) => match p.text_member("next_token"@) {
            Some(t) => Some(t),
            None => p.text_member("next_page_token"@),
        },
        None => None,
    }
}

/// What a listing exchange settled as `outcome` yields: the payload with
/// its continuation token, or the error. A refusal with one of the
/// backend's codes for a missing path is told apart as not found; like
/// every refusal it keeps the backend's code and message.
pub open spec fn sent_listing(outcome: Result<JsonValue, RequestErrorView>) -> Result<
    (JsonValue, Option<Seq<char>>),
    ListErrorView,
> {
    match outcome {
        Ok(data) => Ok((data, continuation(data))),
        Err(RequestErrorView::Api { code, msg }) => if reports_not_found(code) {
            Err(ListErrorView::NotFound { code, msg })
        } else {
            Err(ListErrorView::Request(RequestErrorView::Api { code, msg }))
        },
        Err(e) => Err(ListErrorView::Request(e)),
    }
}

/// The value of a listing exchange's result.
pub open spec fn sent_view(r: Result<(Json, Option<String>), ListError>) -> Result<
    (JsonValue, Option<Seq<char>>),
    ListErrorView,
> {
    match r {
        Ok((data, token)) => Ok((data@, opt_text(token))),
        Err(e) => Err(e@),
    }
}

/// The root to browse: the configured one, or the fixed fallback.
pub fn browse_root(configured: Option<&str>) -> (r: String)
    ensures
        r@ == browse_root_of(
            match configured {
                Some(c) => Some(c@),
                None => None,
            },
        ),
{
    match configured {
        Some(c) => String::from_str(c),
        None => String::from_str("cloudreve://my"),
    }
}

/// The continuation token a listing payload carries.
pub fn continuation_token(data: &Json) -> (r: Option<String>)
    ensures
        opt_text(r) == continuation(data@),
{
    match data.get("pagination") {
        Some(p) => {
            let token = match p.get_str("next_token") {
                Some(t) => Some(t),
                None => p.get_str("next_page_token"),
            };
            match token {
                Some(t) => Some(String::from_str(t)),
                None => None,
            }
        },
        None => None,
    }
}

/// Settles a listing exchange from its decoded reply: the payload and the
/// continuation token it carries, or the error. The backend's codes for a
/// missing path become [`ListError::NotFound`], which keeps the backend's
/// message.
pub fn read_listing(outcome: Result<Json, RequestError>) -> (r: Result<
    (Json, Option<String>),
    ListError,
>)
    ensures
        sent_view(r) == sent_listing(outcome_view(outcome)),
{
    match outcome {
        Ok(data) => {
            let token = continuation_token(&data);
            Ok((data, token))
        },
        Err(RequestError::Api { code, msg }) => {
            if code == CODE_NOT_FOUND || code == CODE_PATH_NOT_EXIST {
                Err(ListError::NotFound { code, msg })
            } else {
                Err(ListError::Request(RequestError::Api { code, msg }))
            }
        },
        Err(e) => Err(ListError::Request(e)),
    }
}

/// A listing request in the making.
pub struct ListFilesBuilder<'a> {
    pub(crate) client: &'a CloudreveClient,
    pub(crate) uri: String,
    pub(crate) page: Option<u32>,
    pub(crate) page_size: Option<u32>,
    pub(crate) next_page_token: Option<String>,
}

/// The mathematical value of a [`ListFilesBuilder`].
pub struct ListFilesView {
    pub client: ClientView,
    pub uri: Seq<char>,
    pub page: Option<u32>,
    pub page_size: Option<u32>,
    pub next_page_token: Option<Seq<char>>,
}

impl<'a> View for ListFilesBuilder<'a> {
    type V = ListFilesView;

    closed spec fn view(&self) -> ListFilesView {
        ListFilesView {
            client: self.client@,
            uri: self.uri@,
            page: self.page,
            page_size: self.page_size,
            next_page_token: opt_text(self.next_page_token),
        }
    }
}

impl<'a> ListFilesBuilder<'a> {
    /// A builder that names no path, page, page size or token yet.
    pub fn new(client: &'a CloudreveClient) -> (r: Self)
        ensures
            r@ == (ListFilesView {
                client: client@,
                uri: Seq::empty(),
                page: None,
                page_size: None,
                next_page_token: None,
            }),
    {
        Self { client, uri: String::new(), page: None, page_size: None, next_page_token: None }
    }

    /// Names the path to list.
    pub fn uri(self, uri: &str) -> (r: Self)
        ensures
            r@ == (ListFilesView { uri: uri@, ..self@ }),
    {
        let mut b = self;
        b.uri = String::from_str(uri);
        b
    }

    /// Names the page to fetch.
    pub fn page(self, page: u32) -> (r: Self)
        ensures
            r@ == (ListFilesView { page: Some(page), ..self@ }),
    {
        let mut b = self;
        b.page = Some(page);
        b
    }

    /// Names the number of entries to a page.
    pub fn page_size(self, page_size: u32) -> (r: Self)
        ensures
            r@ == (ListFilesView { page_size: Some(page_size), ..self@ }),
    {
        let mut b = self;
        b.page_size = Some(page_size);
        b
    }

    /// Names the continuation token to echo back.
    pub fn next_page_token(self, token: &str) -> (r: Self)
        ensures
            r@ == (ListFilesView { next_page_token: Some(token@), ..self@ }),
    {
        let mut b = self;
        b.next_page_token = Some(String::from_str(token));
        b
    }

    /// The request as built so far. A path that was not named is the browse
    /// root (`base_path` where one is configured); the page defaults to the
    /// first, the page size to fifty and the token to none.
    pub fn request(&self, base_path: Option<&str>) -> (r: ApiRequest)
        ensures
            r@ == listing_request(
                self@.client,
                effective_uri(
                    self@.uri,
                    match base_path {
                        Some(c) => Some(c@),
                        None => None,
                    },
                ),
                match self@.page {
                    Some(p) => p,
                    None => 0,
                },
                match self@.page_size {
                    Some(p) => p,
                    None => DEFAULT_PAGE_SIZE,
                },
                text_or(self@.next_page_token, Seq::empty()),
            ),
    {
        let uri = if self.uri.as_str().is_empty() {
            browse_root(base_path)
        } else {
            self.uri.clone()
        };
        let page: u32 = match self.page {
            Some(p) => p,
            None => 0,
        };
        let page_size: u32 = match self.page_size {
            Some(p) => p,
            None => DEFAULT_PAGE_SIZE,
        };
        let token = match &self.next_page_token {
            Some(t) => t.clone(),
            None => String::new(),
        };
        let mut r = self.client.request_builder(Method::Get, "/file");
        let mut query: Vec<(String, String)> = Vec::new();
        query.push((String::from_str("uri"), uri));
        query.push((String::from_str("page"), decimal_string(page as u64)));
        query.push((String::from_str("page_size"), decimal_string(page_size as u64)));
        query.push((String::from_str("next_page_token"), token));
        r.query = query;
        assert(r@.query =~= seq![
            ("uri"@, uri@),
            ("page"@, decimal(page as nat)),
            ("page_size"@, decimal(page_size as nat)),
            ("next_page_token"@, token@),
        ]);
        r
    }

    /// Settles the exchange from its decoded reply, as [`read_listing`]
    /// does.
    pub fn send(self, outcome: Result<Json, RequestError>) -> (r: Result<
        (Json, Option<String>),
        ListError,
    >)
        ensures
            sent_view(r) == sent_listing(outcome_view(outcome)),
    {
        read_listing(outcome)
    }
}

impl CloudreveClient {
    /// Starts a listing request.
    pub fn list_files(&self) -> (r: ListFilesBuilder<'_>)
        ensures
            r@ == (ListFilesView {
                client: self@,
                uri: Seq::empty(),
                page: None,
                page_size: None,
                next_page_token: None,
            }),
    {
        ListFilesBuilder::new(self)
    }
}

/// A listing error as a line of text. What the backend refused is shown
/// with the backend's message, whatever the code.
pub open spec fn list_error_text(e: ListErrorView) -> Seq<char> {
    match e {
        ListErrorView::NotFound { code, msg } => "Failed to list files: "@ + msg,
        ListErrorView::Malformed => "Failed to parse file list."@,
        ListErrorView::Request(e) => "Failed to list files: "@ + request_error_text(e),
    }
}

/// Whatever code the backend refuses a listing with, the error carries
/// the backend's message; it is told apart as not found exactly for the
/// backend's two codes for a missing path.
pub proof fn lemma_refusal_carries_message(code: i32, msg: Seq<char>)
    ensures
        sent_listing(Err(RequestErrorView::Api { code, msg })) is Err,
        list_error_text(sent_listing(Err(RequestErrorView::Api { code, msg }))->Err_0)
            == "Failed to list files: "@ + msg,
        reports_not_found(code) ==> sent_listing(Err(RequestErrorView::Api { code, msg }))
            == Err::<(JsonValue, Option<Seq<char>>), ListErrorView>(
            ListErrorView::NotFound { code, msg },
        ),
        !reports_not_found(code) ==> sent_listing(Err(RequestErrorView::Api { code, msg }))
            == Err::<(JsonValue, Option<Seq<char>>), ListErrorView>(
            ListErrorView::Request(RequestErrorView::Api { code, msg }),
        ),
{
}

impl ListError {
    /// The error as a line of text.
    pub fn message(&self) -> (r: String)
        ensures
            r@ == list_error_text(self@),
    {
        match self {
            ListError::NotFound { code, msg } => crate::text::join(
                "Failed to list files: ",
                msg.as_str(),
            ),
            ListError::Malformed => String::from_str("Failed to parse file list."),
            ListError::Request(e) => {
                let inner = e.message();
                crate::text::join("Failed to list files: ", inner.as_str())
            },
        }
    }
}

} // verus!
