use cloudreve_bot::cloudreve::request::{decode_reply, Method, Reply, RequestError};
use cloudreve_bot::cloudreve::{AuthError, CloudreveClient};
use cloudreve_bot::json::Json;

fn answer(body: &str) -> Result<Json, RequestError> {
    decode_reply(&Reply::Received { status: 200, body: body.to_string() })
}

fn logged_in() -> CloudreveClient {
    let mut client = CloudreveClient::new("http://h".to_string());
    let outcome =
        answer(r#"{"code":0,"data":{"token":{"access_token":"a1","refresh_token":"r1"}}}"#);
    assert_eq!(client.login(outcome), Ok(()));
    client
}

#[test]
fn new_client_holds_no_credential() {
    let client = CloudreveClient::new("http://h".to_string());
    assert_eq!(client.credential().access_token, "");
    assert_eq!(client.credential().refresh_token, "");
    assert_eq!(client.current_bearer(), None);
}

#[test]
fn login_request_carries_identity_and_secret_unsigned() {
    let client = logged_in();
    let request = client.login_request("me@example.com", "s3cret");
    assert_eq!(request.method, Method::Post);
    assert_eq!(request.url, "http://h/api/v4/session/token");
    assert_eq!(request.authorization, None);
    assert!(request.query.is_empty());
    assert_eq!(
        request.body,
        Some(Json::Object(vec![
            ("email".to_string(), Json::Str("me@example.com".to_string())),
            ("Password".to_string(), Json::Str("s3cret".to_string())),
        ]))
    );
}

#[test]
fn login_with_nested_tokens_populates_the_bearer() {
    let client = logged_in();
    assert_eq!(client.current_bearer(), Some("a1".to_string()));
    assert_eq!(client.credential().access_token, "a1");
    assert_eq!(client.credential().refresh_token, "r1");
}

#[test]
fn rejected_login_leaves_credential_empty_and_returns_the_message() {
    let mut client = CloudreveClient::new("http://h".to_string());
    let result = client.login(answer(r#"{"code":40001,"msg":"Incorrect password"}"#));
    assert_eq!(
        result,
        Err(AuthError::LoginRejected { code: 40001, msg: "Incorrect password".to_string() })
    );
    assert_eq!(result.unwrap_err().message(), "Login failed: Incorrect password");
    assert_eq!(client.current_bearer(), None);
    assert_eq!(client.credential().refresh_token, "");
}

#[test]
fn rejected_login_leaves_a_prior_credential_untouched() {
    let mut client = logged_in();
    let result = client.login(answer(r#"{"code":1,"msg":"no"}"#));
    assert!(result.is_err());
    assert_eq!(client.credential().access_token, "a1");
    assert_eq!(client.credential().refresh_token, "r1");
}

#[test]
fn login_falls_back_to_a_flat_token() {
    let mut client = logged_in();
    assert_eq!(client.login(answer(r#"{"code":0,"data":{"token":"flat"}}"#)), Ok(()));
    assert_eq!(client.credential().access_token, "flat");
    assert_eq!(client.credential().refresh_token, "r1");
}

#[test]
fn login_keeps_what_the_payload_does_not_give() {
    let mut client = logged_in();
    assert_eq!(
        client.login(answer(r#"{"code":0,"data":{"token":{"refresh_token":"r2"}}}"#)),
        Ok(())
    );
    assert_eq!(client.credential().access_token, "a1");
    assert_eq!(client.credential().refresh_token, "r2");
    assert_eq!(
        client.login(answer(r#"{"code":0,"data":{"token":{"access_token":7}}}"#)),
        Ok(())
    );
    assert_eq!(client.credential().access_token, "a1");
    assert_eq!(client.login(answer(r#"{"code":0,"data":{"user":"x"}}"#)), Ok(()));
    assert_eq!(client.login(answer(r#"{"code":0}"#)), Ok(()));
    assert_eq!(client.login(answer(r#"{"code":0,"data":{"token":12}}"#)), Ok(()));
    assert_eq!(client.credential().access_token, "a1");
    assert_eq!(client.credential().refresh_token, "r2");
}

#[test]
fn login_that_fails_in_transit_changes_nothing() {
    let mut client = logged_in();
    let result = client.login(decode_reply(&Reply::Unreachable("dns".to_string())));
    assert_eq!(
        result,
        Err(AuthError::Request(RequestError::Transport {
            status: None,
            detail: "dns".to_string()
        }))
    );
    let result = client.login(answer("not json"));
    assert_eq!(
        result,
        Err(AuthError::Request(RequestError::Protocol { body: "not json".to_string() }))
    );
    assert_eq!(client.credential().access_token, "a1");
    assert_eq!(client.credential().refresh_token, "r1");
}

#[test]
fn refresh_without_refresh_token_fails_without_a_request() {
    let mut client = CloudreveClient::new("http://h".to_string());
    assert_eq!(client.refresh_request(), Err(AuthError::NoRefreshToken));
    let accepted =
        answer(r#"{"code":0,"data":{"token":{"access_token":"a2","refresh_token":"r2"}}}"#);
    assert_eq!(client.refresh_token(accepted), Err(AuthError::NoRefreshToken));
    assert_eq!(client.current_bearer(), None);
    assert_eq!(client.credential().refresh_token, "");
    assert_eq!(AuthError::NoRefreshToken.message(), "No refresh token available");
}

#[test]
fn refresh_without_refresh_token_fails_even_with_an_access_token() {
    let mut client = CloudreveClient::new("http://h".to_string());
    assert_eq!(client.login(answer(r#"{"code":0,"data":{"token":"flat"}}"#)), Ok(()));
    assert_eq!(client.refresh_request(), Err(AuthError::NoRefreshToken));
    assert_eq!(client.refresh_token(answer(r#"{"code":0}"#)), Err(AuthError::NoRefreshToken));
    assert_eq!(client.credential().access_token, "flat");
}

#[test]
fn refresh_request_is_signed_with_the_access_token() {
    let client = logged_in();
    let request = client.refresh_request().expect("a refresh token is held");
    assert_eq!(request.method, Method::Post);
    assert_eq!(request.url, "http://h/api/v4/session/token/refresh");
    assert_eq!(request.authorization, Some("Bearer a1".to_string()));
    assert!(request.query.is_empty());
    assert_eq!(request.body, None);
}

#[test]
fn refresh_replaces_both_tokens() {
    let mut client = logged_in();
    let accepted =
        answer(r#"{"code":0,"data":{"token":{"access_token":"a2","refresh_token":"r2"}}}"#);
    assert_eq!(client.refresh_token(accepted), Ok(()));
    assert_eq!(client.credential().access_token, "a2");
    assert_eq!(client.credential().refresh_token, "r2");
    assert_eq!(client.current_bearer(), Some("a2".to_string()));
}

#[test]
fn refresh_reads_only_the_nested_shape() {
    let mut client = logged_in();
    assert_eq!(client.refresh_token(answer(r#"{"code":0,"data":{"token":"flat"}}"#)), Ok(()));
    assert_eq!(client.credential().access_token, "a1");
    assert_eq!(client.credential().refresh_token, "r1");
}

#[test]
fn refresh_failure_keeps_the_stored_credential() {
    let mut client = logged_in();
    let result = client.refresh_token(answer(r#"{"code":401,"msg":"expired"}"#));
    assert_eq!(result, Err(AuthError::RefreshRejected { code: 401, msg: "expired".to_string() }));
    assert_eq!(result.unwrap_err().message(), "Refresh failed: expired");
    assert_eq!(client.credential().access_token, "a1");
    assert_eq!(client.credential().refresh_token, "r1");
    let result = client.refresh_token(decode_reply(&Reply::Unreachable("reset".to_string())));
    assert_eq!(
        result,
        Err(AuthError::Request(RequestError::Transport {
            status: None,
            detail: "reset".to_string()
        }))
    );
    assert_eq!(result.unwrap_err().message(), "reset");
    let result = client.refresh_token(answer("{"));
    assert_eq!(result, Err(AuthError::Request(RequestError::Protocol { body: "{".to_string() })));
    assert_eq!(client.credential().access_token, "a1");
    assert_eq!(client.credential().refresh_token, "r1");
    assert_eq!(client.current_bearer(), Some("a1".to_string()));
}
