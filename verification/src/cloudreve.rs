//! The client for the storage backend's HTTP API: where it lives, the
//! credential it signs requests with, and the login and refresh exchanges
//! that set that credential.
//!
//! The client sends nothing itself. For each exchange it describes the
//! request, and it takes the decoded reply to settle the result.

pub mod file_source;
pub mod list_files;
pub mod remote_download;
pub mod remote_list;
pub mod request;

use crate::json::{Json, JsonValue};
use crate::text::{join, trim_end, trim_end_matches};
use request::{
    envelope_of,
    outcome_view,
    request_error_text,
    response_outcome,
    ApiRequest,
    ApiRequestView,
    Method,
    RequestError,
    RequestErrorView,
};
use vstd::prelude::*;

verus! {

/// The pair of tokens that proves the session's identity. It is only ever
/// replaced as a whole.
#[derive(Debug, PartialEq)]
pub struct Credential {
    pub access_token: String,
    pub refresh_token: String,
}

/// The mathematical value of a [`Credential`].
pub struct CredentialView {
    pub access_token: Seq<char>,
    pub refresh_token: Seq<char>,
}

impl View for Credential {
    type V = CredentialView;

    open spec fn view(&self) -> CredentialView {
        CredentialView { access_token: self.access_token@, refresh_token: self.refresh_token@ }
    }
}

/// A client for one backend, holding at most one identity.
#[derive(Debug)]
pub struct CloudreveClient {
    base_url: String,
    state: Credential,
}

/// The mathematical value of a [`CloudreveClient`].
pub struct ClientView {
    /// The API root that every endpoint path is appended to.
    pub base_url: Seq<char>,
    pub credential: CredentialView,
}

impl View for CloudreveClient {
    type V = ClientView;

    closed spec fn view(&self) -> ClientView {
        ClientView { base_url: self.base_url@, credential: self.state@ }
    }
}

/// Why a login or a refresh did not set a credential.
#[derive(Debug, PartialEq)]
pub enum AuthError {
    /// The backend turned the login down.
    LoginRejected { code: i32, msg: String },
    /// The backend turned the refresh down.
    RefreshRejected { code: i32, msg: String },
    /// There is no refresh token to refresh with.
    NoRefreshToken,
    /// The exchange itself failed.
    Request(RequestError),
}

/// The mathematical value of an [`AuthError`].
pub enum AuthErrorView {
    LoginRejected { code: i32, msg: Seq<char> },
    RefreshRejected { code: i32, msg: Seq<char> },
    NoRefreshToken,
    Request(RequestErrorView),
}

impl View for AuthError {
    type V = AuthErrorView;

    open spec fn view(&self) -> AuthErrorView {
        match self {
            AuthError::LoginRejected { code, msg } => AuthErrorView::LoginRejected {
                code: *code,
                msg: msg@,
            },
            AuthError::RefreshRejected { code, msg } => AuthErrorView::RefreshRejected {
                code: *code,
                msg: msg@,
            },
            AuthError::NoRefreshToken => AuthErrorView::NoRefreshToken,
            AuthError::Request(e) => AuthErrorView::Request(e@),
        }
    }
}

/// The value of an exchange's verdict.
pub open spec fn verdict_view(r: Result<(), AuthError>) -> Result<(), AuthErrorView> {
    match r {
        Ok(()) => Ok(()),
        Err(e) => Err(e@),
    }
}

/// The value of a request that may have been refused.
pub open spec fn request_view(r: Result<ApiRequest, AuthError>) -> Result<
    ApiRequestView,
    AuthErrorView,
> {
    match r {
        Ok(q) => Ok(q@),
        Err(e) => Err(e@),
    }
}

/// The API root for a backend address: the address without trailing
/// slashes, followed by the versioned prefix.
pub open spec fn api_root(address: Seq<char>) -> Seq<char> {
    trim_end(address, '/') + "/api/v4"@
}

/// The header value that signs a request, where there is a token to sign
/// with.
pub open spec fn bearer_header(access_token: Seq<char>) -> Option<Seq<char>> {
    if access_token.len() == 0 {
        None
    } else {
        Some("Bearer "@ + access_token)
    }
}

/// The access token, where one is held.
pub open spec fn bearer_of(c: CredentialView) -> Option<Seq<char>> {
    if c.access_token.len() == 0 {
        None
    } else {
        Some(c.access_token)
    }
}

/// A request to an endpoint, signed with the access token where one is
/// held, with no query and no body.
pub open spec fn plain_request(
    client: ClientView,
    method: Method,
    path: Seq<char>,
) -> ApiRequestView {
    ApiRequestView {
        method,
        url: client.base_url + path,
        authorization: bearer_header(client.credential.access_token),
        query: Seq::empty(),
        body: None,
    }
}

/// The body of a login request.
pub open spec fn login_body(identity: Seq<char>, secret: Seq<char>) -> JsonValue {
    JsonValue::Object(
        seq![("email"@, JsonValue::Str(identity)), ("Password"@, JsonValue::Str(secret))],
    )
}

/// `o`'s text, or `d` where there is none.
pub open spec fn text_or(o: Option<Seq<char>>, d: Seq<char>) -> Seq<char> {
    match o {
        Some(s) => s,
        None => d,
    }
}

/// The credential after a login that the backend accepted with `data`.
///
/// Tokens are read from the strings `access_token` and `refresh_token`
/// nested under `token`. Where `token` is itself a string, it is the access
/// token. A token that the payload does not give keeps its prior value.
pub open spec fn login_credential(prior: CredentialView, data: JsonValue) -> CredentialView {
    match data.member("token"@) {
        Some(JsonValue::Str(flat)) => CredentialView {
            access_token: flat,
            refresh_token: prior.refresh_token,
        },
        Some(nested) => CredentialView {
            access_token: text_or(nested.text_member("access_token"@), prior.access_token),
            refresh_token: text_or(nested.text_member("refresh_token"@), prior.refresh_token),
        },
        None => prior,
    }
}

/// The credential after a refresh that the backend accepted with `data`:
/// as for a login, but only the nested shape is read.
pub open spec fn refreshed_credential(prior: CredentialView, data: JsonValue) -> CredentialView {
    match data.member("token"@) {
        Some(nested) => CredentialView {
            access_token: text_or(nested.text_member("access_token"@), prior.access_token),
            refresh_token: text_or(nested.text_member("refresh_token"@), prior.refresh_token),
        },
        None => prior,
    }
}

/// The credential after a login exchange settled as `outcome`.
pub open spec fn login_state(
    prior: CredentialView,
    outcome: Result<JsonValue, RequestErrorView>,
) -> CredentialView {
    match outcome {
        Ok(data) => login_credential(prior, data),
        Err(_) => prior,
    }
}

/// The verdict of a login exchange settled as `outcome`.
pub open spec fn login_verdict(outcome: Result<JsonValue, RequestErrorView>) -> Result<
    (),
    AuthErrorView,
> {
    match outcome {
        Ok(_) => Ok(()),
        Err(RequestErrorView::Api { code, msg }) => Err(AuthErrorView::LoginRejected { code, msg }),
        Err(e) => Err(AuthErrorView::Request(e)),
    }
}

/// The credential after a refresh exchange settled as `outcome`.
pub open spec fn refresh_state(
    prior: CredentialView,
    outcome: Result<JsonValue, RequestErrorView>,
) -> CredentialView {
    match outcome {
        Ok(data) => if prior.refresh_token.len() == 0 {
            prior
        } else {
            refreshed_credential(prior, data)
        },
        Err(_) => prior,
    }
}

/// The verdict of a refresh exchange settled as `outcome`.
pub open spec fn refresh_verdict(
    prior: CredentialView,
    outcome: Result<JsonValue, RequestErrorView>,
) -> Result<(), AuthErrorView> {
    if prior.refresh_token.len() == 0 {
        Err(AuthErrorView::NoRefreshToken)
    } else {
        match outcome {
            Ok(_) => Ok(()),
            Err(RequestErrorView::Api { code, msg }) => Err(
                AuthErrorView::RefreshRejected { code, msg },
            ),
            Err(e) => Err(AuthErrorView::Request(e)),
        }
    }
}

/// A login that the backend accepts with an access token nested under
/// `token` makes that token the bearer.
pub proof fn lemma_login_sets_bearer(
    prior: CredentialView,
    status: u16,
    body: Seq<char>,
    doc: JsonValue,
    data: JsonValue,
    nested: JsonValue,
    access: Seq<char>,
)
    requires
        envelope_of(doc) is Some,
        envelope_of(doc)->0.code == 0,
        envelope_of(doc)->0.data == Some(data),
        data.member("token"@) == Some(nested),
        nested.text_member("access_token"@) == Some(access),
        access.len() > 0,
    ensures
        login_verdict(response_outcome(status, body, Some(doc))) is Ok,
        bearer_of(login_state(prior, response_outcome(status, body, Some(doc)))) == Some(access),
{
}

/// A login that the backend rejects leaves the credential as it was, an
/// empty one empty, and returns the backend's message.
pub proof fn lemma_login_rejected(
    prior: CredentialView,
    status: u16,
    body: Seq<char>,
    doc: JsonValue,
)
    requires
        envelope_of(doc) is Some,
        envelope_of(doc)->0.code != 0,
    ensures
        login_state(prior, response_outcome(status, body, Some(doc))) == prior,
        login_verdict(response_outcome(status, body, Some(doc))) == Err::<(), AuthErrorView>(
            AuthErrorView::LoginRejected {
                code: envelope_of(doc)->0.code,
                msg: text_or(envelope_of(doc)->0.msg, Seq::empty()),
            },
        ),
        prior.access_token.len() == 0 ==> bearer_of(
            login_state(prior, response_outcome(status, body, Some(doc))),
        ) is None,
{
}

/// Without a refresh token a refresh fails whatever the reply, and leaves
/// the credential as it was.
pub proof fn lemma_refresh_needs_token(
    prior: CredentialView,
    outcome: Result<JsonValue, RequestErrorView>,
)
    requires
        prior.refresh_token.len() == 0,
    ensures
        refresh_verdict(prior, outcome) == Err::<(), AuthErrorView>(AuthErrorView::NoRefreshToken),
        refresh_state(prior, outcome) == prior,
{
}

/// A refresh that fails leaves the credential as it was.
pub proof fn lemma_failed_refresh_keeps_credential(
    prior: CredentialView,
    outcome: Result<JsonValue, RequestErrorView>,
)
    requires
        refresh_verdict(prior, outcome) is Err,
    ensures
        refresh_state(prior, outcome) == prior,
{
}

/// A login that fails leaves the credential as it was.
pub proof fn lemma_failed_login_keeps_credential(
    prior: CredentialView,
    outcome: Result<JsonValue, RequestErrorView>,
)
    requires
        login_verdict(outcome) is Err,
    ensures
        login_state(prior, outcome) == prior,
{
}

/// The string `key` of `j` as an owned text.
fn owned_member(j: &Json, key: &str) -> (r: Option<String>)
    ensures
        request::opt_text(r) == j@.text_member(key@),
{
    match j.get_str(key) {
        Some(s) => Some(String::from_str(s)),
        None => None,
    }
}

/// `o`'s text, or a copy of `d` where there is none.
fn owned_or(o: Option<String>, d: &String) -> (r: String)
    ensures
        r@ == text_or(request::opt_text(o), d@),
{
    match o {
        Some(s) => s,
        None => d.clone(),
    }
}

impl CloudreveClient {
    /// A client for the backend at `base_url`, holding no credential.
    pub fn new(base_url: String) -> (r: Self)
        ensures
            r@.base_url == api_root(base_url@),
            r@.credential.access_token.len() == 0,
            r@.credential.refresh_token.len() == 0,
    {
        let trimmed = trim_end_matches(base_url.as_str(), '/');
        CloudreveClient {
            base_url: join(trimmed, "/api/v4"),
            state: Credential { access_token: String::new(), refresh_token: String::new() },
        }
    }

    /// The API root that endpoint paths are appended to.
    pub fn base_url(&self) -> (r: &str)
        ensures
            r@ == self@.base_url,
    {
        self.base_url.as_str()
    }

    /// The credential as it stands.
    pub fn credential(&self) -> (r: &Credential)
        ensures
            r@ == self@.credential,
    {
        &self.state
    }

    /// The access token to sign a request with, where one is held.
    pub fn current_bearer(&self) -> (r: Option<String>)
        ensures
            request::opt_text(r) == bearer_of(self@.credential),
    {
        if self.state.access_token.as_str().is_empty() {
            None
        } else {
            Some(self.state.access_token.clone())
        }
    }

    /// A request to the endpoint at `path`: the address is the API root
    /// followed by `path`, and the bearer header is attached when an access
    /// token is held.
    pub fn request_builder(&self, method: Method, path: &str) -> (r: ApiRequest)
        ensures
            r@ == plain_request(self@, method, path@),
    {
        let authorization = if self.state.access_token.as_str().is_empty() {
            None
        } else {
            Some(join("Bearer ", self.state.access_token.as_str()))
        };
        let r = ApiRequest {
            method,
            url: join(self.base_url.as_str(), path),
            authorization,
            query: Vec::new(),
            body: None,
        };
        assert(r@.query =~= Seq::empty());
        r
    }

    /// The login request for an identity and its secret. It is sent
    /// unsigned.
    pub fn login_request(&self, username: &str, password: &str) -> (r: ApiRequest)
        ensures
            r@ == (ApiRequestView {
                method: Method::Post,
                url: self@.base_url + "/session/token"@,
                authorization: None,
                query: Seq::empty(),
                body: Some(login_body(username@, password@)),
            }),
    {
        let mut members: Vec<(String, Json)> = Vec::new();
        members.push((String::from_str("email"), Json::Str(String::from_str(username))));
        members.push((String::from_str("Password"), Json::Str(String::from_str(password))));
        let body = Json::Object(members);
        proof {
            crate::json::lemma_object_value(members);
            assert(crate::json::members_of(members@) =~= seq![
                ("email"@, JsonValue::Str(username@)),
                ("Password"@, JsonValue::Str(password@)),
            ]);
        }
        let r = ApiRequest {
            method: Method::Post,
            url: join(self.base_url.as_str(), "/session/token"),
            authorization: None,
            query: Vec::new(),
            body: Some(body),
        };
        assert(r@.query =~= Seq::empty());
        r
    }

    /// Settles a login from its decoded reply.
    ///
    /// An accepted login stores the tokens that the payload gives, as one
    /// replacement of the credential. Any failure leaves the credential as
    /// it was; a rejection by the backend carries the backend's message.
    pub fn login(&mut self, outcome: Result<Json, RequestError>) -> (r: Result<(), AuthError>)
        ensures
            final(self)@.base_url == old(self)@.base_url,
            final(self)@.credential == login_state(old(self)@.credential, outcome_view(outcome)),
            verdict_view(r) == login_verdict(outcome_view(outcome)),
    {
        match outcome {
            Ok(data) => {
                match data.get("token") {
                    Some(Json::Str(flat)) => {
                        self.state = Credential {
                            access_token: flat.clone(),
                            refresh_token: self.state.refresh_token.clone(),
                        };
                    },
                    Some(nested) => {
                        let access = owned_member(nested, "access_token");
                        let refresh = owned_member(nested, "refresh_token");
                        self.state = Credential {
                            access_token: owned_or(access, &self.state.access_token),
                            refresh_token: owned_or(refresh, &self.state.refresh_token),
                        };
                    },
                    None => {},
                }
                Ok(())
            },
            Err(RequestError::Api { code, msg }) => Err(AuthError::LoginRejected { code, msg }),
            Err(e) => Err(AuthError::Request(e)),
        }
    }

    /// The refresh request, signed with the current access token. Without a
    /// refresh token there is nothing to send.
    pub fn refresh_request(&self) -> (r: Result<ApiRequest, AuthError>)
        ensures
            request_view(r) == if self@.credential.refresh_token.len() == 0 {
                Err::<ApiRequestView, AuthErrorView>(AuthErrorView::NoRefreshToken)
            } else {
                Ok(plain_request(self@, Method::Post, "/session/token/refresh"@))
            },
    {
        if self.state.refresh_token.as_str().is_empty() {
            Err(AuthError::NoRefreshToken)
        } else {
            Ok(self.request_builder(Method::Post, "/session/token/refresh"))
        }
    }

    /// Settles a refresh from its decoded reply.
    ///
    /// Without a refresh token this fails whatever the reply. An accepted
    /// refresh replaces the tokens that the payload gives; any failure
    /// leaves the credential as it was.
    pub fn refresh_token(&mut self, outcome: Result<Json, RequestError>) -> (r: Result<
        (),
        AuthError,
    >)
        ensures
            final(self)@.base_url == old(self)@.base_url,
            final(self)@.credential == refresh_state(old(self)@.credential, outcome_view(outcome)),
            verdict_view(r) == refresh_verdict(old(self)@.credential, outcome_view(outcome)),
    {
        if self.state.refresh_token.as_str().is_empty() {
            return Err(AuthError::NoRefreshToken);
        }
        match outcome {
            Ok(data) => {
                match data.get("token") {
                    Some(nested) => {
                        let access = owned_member(nested, "access_token");
                        let refresh = owned_member(nested, "refresh_token");
                        self.state = Credential {
                            access_token: owned_or(access, &self.state.access_token),
                            refresh_token: owned_or(refresh, &self.state.refresh_token),
                        };
                    },
                    None => {},
                }
                Ok(())
            },
            Err(RequestError::Api { code, msg }) => Err(AuthError::RefreshRejected { code, msg }),
            Err(e) => Err(AuthError::Request(e)),
        }
    }
}

/// An authentication error as a line of text.
pub open spec fn auth_error_text(e: AuthErrorView) -> Seq<char> {
    match e {
        AuthErrorView::LoginRejected { code, msg } => "Login failed: "@ + msg,
        AuthErrorView::RefreshRejected { code, msg } => "Refresh failed: "@ + msg,
        AuthErrorView::NoRefreshToken => "No refresh token available"@,
        AuthErrorView::Request(e) => request_error_text(e),
    }
}

impl AuthError {
    /// The error as a line of text.
    pub fn message(&self) -> (r: String)
        ensures
            r@ == auth_error_text(self@),
    {
        match self {
            AuthError::LoginRejected { code, msg } => join("Login failed: ", msg.as_str()),
            AuthError::RefreshRejected { code, msg } => join("Refresh failed: ", msg.as_str()),
            AuthError::NoRefreshToken => String::from_str("No refresh token available"),
            AuthError::Request(e) => e.message(),
        }
    }
}

} // verus!
