use cloudreve_bot::cloudreve::list_files::{
    browse_root, continuation_token, read_listing, ListError, ListFilesBuilder,
};
use cloudreve_bot::cloudreve::request::{decode_reply, Method, Reply, RequestError};
use cloudreve_bot::cloudreve::CloudreveClient;
use cloudreve_bot::json::Json;
use cloudreve_bot::listing::{
    list, list_request, read_entry, records, FileEntry, FileKind, PageTokenCache,
};

fn page(body: &str) -> Result<Json, RequestError> {
    decode_reply(&Reply::Received { status: 200, body: body.to_string() })
}

fn pair(name: &str, value: &str) -> (String, String) {
    (name.to_string(), value.to_string())
}

fn file(name: &str, path: &str) -> FileEntry {
    FileEntry { name: name.to_string(), kind: FileKind::File, path: path.to_string() }
}

fn ten_files() -> String {
    let items: Vec<String> =
        (0..10).map(|i| format!(r#"{{"name":"f{}","type":0,"path":"/f{}"}}"#, i, i)).collect();
    format!(r#"{{"code":0,"data":{{"files":[{}]}}}}"#, items.join(","))
}

#[test]
fn builder_defaults() {
    let client = CloudreveClient::new("http://h".to_string());
    let request = client.list_files().request(None);
    assert_eq!(request.method, Method::Get);
    assert_eq!(request.url, "http://h/api/v4/file");
    assert_eq!(request.authorization, None);
    assert_eq!(request.body, None);
    assert_eq!(
        request.query,
        vec![
            pair("uri", "cloudreve://my"),
            pair("page", "0"),
            pair("page_size", "50"),
            pair("next_page_token", ""),
        ]
    );
}

#[test]
fn builder_with_everything_named() {
    let client = CloudreveClient::new("http://h".to_string());
    let request = ListFilesBuilder::new(&client)
        .uri("cloudreve://my/docs")
        .page(3)
        .page_size(10)
        .next_page_token("tok")
        .request(Some("cloudreve://my/base"));
    assert_eq!(
        request.query,
        vec![
            pair("uri", "cloudreve://my/docs"),
            pair("page", "3"),
            pair("page_size", "10"),
            pair("next_page_token", "tok"),
        ]
    );
}

#[test]
fn builder_uses_the_configured_root_for_an_unnamed_path() {
    let client = CloudreveClient::new("http://h".to_string());
    let request = client.list_files().page_size(4294967295).request(Some("cloudreve://my/base"));
    assert_eq!(request.query[0], pair("uri", "cloudreve://my/base"));
    assert_eq!(request.query[2], pair("page_size", "4294967295"));
    assert_eq!(browse_root(None), "cloudreve://my");
    assert_eq!(browse_root(Some("x")), "x");
}

#[test]
fn builder_setters_replace_earlier_values() {
    let client = CloudreveClient::new("http://h".to_string());
    let request =
        client.list_files().uri("a").uri("b").page(1).page(2).next_page_token("x").request(None);
    assert_eq!(request.query[0], pair("uri", "b"));
    assert_eq!(request.query[1], pair("page", "2"));
    assert_eq!(request.query[3], pair("next_page_token", "x"));
}

#[test]
fn send_returns_payload_and_token() {
    let client = CloudreveClient::new("http://h".to_string());
    let outcome = page(r#"{"code":0,"data":{"files":[],"pagination":{"next_token":"n1"}}}"#);
    let (data, token) = client.list_files().send(outcome).expect("a listing");
    assert_eq!(token, Some("n1".to_string()));
    assert_eq!(data.get("files"), Some(&Json::Array(vec![])));
}

#[test]
fn continuation_token_prefers_next_token() {
    let both = page(
        r#"{"code":0,"data":{"pagination":{"next_page_token":"second","next_token":"first"}}}"#,
    )
    .unwrap();
    assert_eq!(continuation_token(&both), Some("first".to_string()));
    let other = page(r#"{"code":0,"data":{"pagination":{"next_page_token":"second"}}}"#).unwrap();
    assert_eq!(continuation_token(&other), Some("second".to_string()));
    let wrong = page(r#"{"code":0,"data":{"pagination":{"next_token":5}}}"#).unwrap();
    assert_eq!(continuation_token(&wrong), None);
    let fallback =
        page(r#"{"code":0,"data":{"pagination":{"next_token":5,"next_page_token":"s"}}}"#)
            .unwrap();
    assert_eq!(continuation_token(&fallback), Some("s".to_string()));
    let none = page(r#"{"code":0,"data":{"pagination":"x"}}"#).unwrap();
    assert_eq!(continuation_token(&none), None);
    assert_eq!(continuation_token(&Json::Null), None);
}

#[test]
fn empty_directory_is_no_error() {
    let mut cache = PageTokenCache::new();
    let result = list(&mut cache, "cloudreve://my/empty", 0, 10, page(r#"{"code":0,"data":{"files":[]}}"#));
    assert_eq!(result, Ok((vec![], false)));
    assert_eq!(cache.len(), 0);
    let result = list(&mut cache, "cloudreve://my/empty", 0, 10, page(r#"{"code":0,"data":[]}"#));
    assert_eq!(result, Ok((vec![], false)));
}

#[test]
fn cached_token_is_used_for_the_next_page() {
    let client = CloudreveClient::new("http://h".to_string());
    let mut cache = PageTokenCache::new();
    let first = list_request(&client, &cache, "cloudreve://my/docs", 0, 10, None);
    assert_eq!(first.query[3], pair("next_page_token", ""));
    let body = r#"{"code":0,"data":{"files":[{"name":"a","type":0,"path":"cloudreve://my/docs/a"}],"pagination":{"next_token":"cursor-1"}}}"#;
    let result = list(&mut cache, "cloudreve://my/docs", 0, 10, page(body));
    assert_eq!(result, Ok((vec![file("a", "cloudreve://my/docs/a")], true)));
    assert_eq!(cache.get("cloudreve://my/docs", 1), Some("cursor-1"));
    let next = list_request(&client, &cache, "cloudreve://my/docs", 1, 10, None);
    assert_eq!(
        next.query,
        vec![
            pair("uri", "cloudreve://my/docs"),
            pair("page", "1"),
            pair("page_size", "10"),
            pair("next_page_token", "cursor-1"),
        ]
    );
    let other = list_request(&client, &cache, "cloudreve://my/other", 1, 10, None);
    assert_eq!(other.query[3], pair("next_page_token", ""));
    let later = list_request(&client, &cache, "cloudreve://my/docs", 2, 10, None);
    assert_eq!(later.query[3], pair("next_page_token", ""));
}

#[test]
fn first_page_is_asked_without_a_token() {
    let client = CloudreveClient::new("http://h".to_string());
    let mut cache = PageTokenCache::new();
    cache.insert("p", 0, "stale");
    assert_eq!(cache.get("p", 0), Some("stale"));
    let request = list_request(&client, &cache, "p", 0, 10, None);
    assert_eq!(request.query[3], pair("next_page_token", ""));
}

#[test]
fn list_request_for_an_unnamed_path_asks_for_the_root() {
    let client = CloudreveClient::new("http://h".to_string());
    let cache = PageTokenCache::new();
    let request = list_request(&client, &cache, "", 0, 10, Some("cloudreve://my/base"));
    assert_eq!(request.query[0], pair("uri", "cloudreve://my/base"));
    let request = list_request(&client, &cache, "", 0, 10, None);
    assert_eq!(request.query[0], pair("uri", "cloudreve://my"));
}

#[test]
fn full_page_may_have_more() {
    let mut cache = PageTokenCache::new();
    let (entries, more) = list(&mut cache, "p", 0, 10, page(&ten_files())).expect("a page");
    assert_eq!(entries.len(), 10);
    assert!(more);
    let (entries, more) = list(&mut cache, "p", 0, 11, page(&ten_files())).expect("a page");
    assert_eq!(entries.len(), 10);
    assert!(!more);
    assert_eq!(cache.len(), 0);
}

#[test]
fn empty_token_is_present_but_not_remembered() {
    let mut cache = PageTokenCache::new();
    let body = r#"{"code":0,"data":{"files":[],"pagination":{"next_token":""}}}"#;
    assert_eq!(list(&mut cache, "p", 0, 10, page(body)), Ok((vec![], true)));
    assert_eq!(cache.get("p", 1), None);
    assert_eq!(cache.len(), 0);
}

#[test]
fn token_of_the_last_page_index_is_not_remembered() {
    let mut cache = PageTokenCache::new();
    let body = r#"{"code":0,"data":{"files":[],"pagination":{"next_token":"t"}}}"#;
    assert_eq!(list(&mut cache, "p", u32::MAX, 10, page(body)), Ok((vec![], true)));
    assert_eq!(cache.len(), 0);
    assert_eq!(list(&mut cache, "p", u32::MAX - 1, 10, page(body)), Ok((vec![], true)));
    assert_eq!(cache.get("p", u32::MAX), Some("t"));
}

#[test]
fn token_is_remembered_even_where_the_payload_is_no_listing() {
    let mut cache = PageTokenCache::new();
    let body = r#"{"code":0,"data":{"pagination":{"next_token":"t"}}}"#;
    assert_eq!(list(&mut cache, "p", 4, 10, page(body)), Err(ListError::Malformed));
    assert_eq!(cache.get("p", 5), Some("t"));
}

#[test]
fn payload_without_records_is_malformed() {
    let mut cache = PageTokenCache::new();
    for body in [
        r#"{"code":0}"#,
        r#"{"code":0,"data":{"files":"none"}}"#,
        r#"{"code":0,"data":"text"}"#,
        r#"{"code":0,"data":{}}"#,
    ] {
        assert_eq!(list(&mut cache, "p", 0, 10, page(body)), Err(ListError::Malformed));
    }
    assert_eq!(ListError::Malformed.message(), "Failed to parse file list.");
}

#[test]
fn missing_path_is_not_found() {
    let mut cache = PageTokenCache::new();
    cache.insert("p", 1, "keep");
    assert_eq!(
        list(&mut cache, "p", 0, 10, page(r#"{"code":404,"msg":"Not found"}"#)),
        Err(ListError::NotFound { code: 404, msg: "Not found".to_string() })
    );
    let gone = list(&mut cache, "p", 0, 10, page(r#"{"code":40016,"msg":"Object not found"}"#));
    assert_eq!(gone, Err(ListError::NotFound { code: 40016, msg: "Object not found".to_string() }));
    assert_eq!(gone.unwrap_err().message(), "Failed to list files: Object not found");
    assert_eq!(
        list(&mut cache, "p", 0, 10, page(r#"{"code":40016}"#)),
        Err(ListError::NotFound { code: 40016, msg: String::new() })
    );
    assert_eq!(cache.get("p", 1), Some("keep"));
    assert_eq!(cache.len(), 1);
}

#[test]
fn missing_path_is_told_apart_and_keeps_the_backends_message() {
    let client = CloudreveClient::new("http://h".to_string());
    let builder = client.list_files().uri("cloudreve://my/gone");
    let result = builder.send(page(r#"{"code":40016,"msg":"Object not found"}"#));
    assert_eq!(
        result,
        Err(ListError::NotFound { code: 40016, msg: "Object not found".to_string() })
    );
    assert_ne!(result, Err(ListError::Malformed));
    assert!(result.unwrap_err().message().contains("Object not found"));
}

#[test]
fn every_refusal_carries_the_backends_message() {
    for code in [-1, 1, 203, 401, 403, 404, 409, 40001, 40016, 50001, i32::MAX, i32::MIN] {
        let body = format!(r#"{{"code":{},"msg":"said the backend"}}"#, code);
        let error = read_listing(page(&body)).unwrap_err();
        assert_eq!(error.message(), "Failed to list files: said the backend", "code = {}", code);
        let not_found = matches!(error, ListError::NotFound { .. });
        assert_eq!(not_found, code == 404 || code == 40016, "code = {}", code);
    }
}

#[test]
fn other_failures_pass_through() {
    let mut cache = PageTokenCache::new();
    let result = list(&mut cache, "p", 0, 10, page(r#"{"code":403,"msg":"denied"}"#));
    assert_eq!(
        result,
        Err(ListError::Request(RequestError::Api { code: 403, msg: "denied".to_string() }))
    );
    assert_eq!(result.unwrap_err().message(), "Failed to list files: denied");
    let result = list(&mut cache, "p", 0, 10, decode_reply(&Reply::Unreachable("down".to_string())));
    assert_eq!(
        result,
        Err(ListError::Request(RequestError::Transport {
            status: None,
            detail: "down".to_string()
        }))
    );
    assert_eq!(
        read_listing(page("oops")),
        Err(ListError::Request(RequestError::Protocol { body: "oops".to_string() }))
    );
}

#[test]
fn records_are_read_with_their_defaults() {
    let body = r#"{"code":0,"data":[
        {"name":"photos","type":1,"path":"cloudreve://my/photos"},
        {"name":"a.txt","type":0,"path":"cloudreve://my/a.txt"},
        {"name":"b.txt"},
        {"type":1},
        {"name":5,"type":"1","path":false},
        {"name":"c","type":2},
        {"name":"d","type":1.0},
        7
    ]}"#;
    let mut cache = PageTokenCache::new();
    let (entries, more) = list(&mut cache, "p", 0, 50, page(body)).expect("a page");
    assert!(!more);
    assert_eq!(
        entries,
        vec![
            FileEntry {
                name: "photos".to_string(),
                kind: FileKind::Directory,
                path: "cloudreve://my/photos".to_string()
            },
            file("a.txt", "cloudreve://my/a.txt"),
            file("b.txt", "b.txt"),
            FileEntry {
                name: "Unknown".to_string(),
                kind: FileKind::Directory,
                path: "Unknown".to_string()
            },
            file("Unknown", "Unknown"),
            file("c", "c"),
            file("d", "d"),
            file("Unknown", "Unknown"),
        ]
    );
    assert_eq!(read_entry(&Json::Null), file("Unknown", "Unknown"));
}

#[test]
fn files_member_takes_precedence_over_a_bare_array() {
    let with_files = page(r#"{"code":0,"data":{"files":[1,2]}}"#).unwrap();
    assert_eq!(records(&with_files).map(|r| r.len()), Some(2));
    let bare = page(r#"{"code":0,"data":[1,2,3]}"#).unwrap();
    assert_eq!(records(&bare).map(|r| r.len()), Some(3));
    assert_eq!(records(&Json::Null), None);
}

#[test]
fn cache_holds_one_token_for_a_path_and_page() {
    let mut cache = PageTokenCache::new();
    assert_eq!(cache.get("p", 1), None);
    cache.insert("p", 1, "a");
    cache.insert("p", 2, "b");
    cache.insert("q", 1, "c");
    assert_eq!(cache.len(), 3);
    cache.insert("p", 1, "d");
    assert_eq!(cache.len(), 3);
    assert_eq!(cache.get("p", 1), Some("d"));
    assert_eq!(cache.get("p", 2), Some("b"));
    assert_eq!(cache.get("q", 1), Some("c"));
    assert_eq!(cache.get("q", 2), None);
    cache.insert("p", 1, "");
    assert_eq!(cache.get("p", 1), Some("d"));
    cache.insert("r", 1, "");
    assert_eq!(cache.get("r", 1), None);
    assert_eq!(cache.len(), 3);
}

#[test]
fn later_token_replaces_the_earlier_one() {
    let mut cache = PageTokenCache::new();
    let first = r#"{"code":0,"data":{"files":[],"pagination":{"next_token":"one"}}}"#;
    let second = r#"{"code":0,"data":{"files":[],"pagination":{"next_token":"two"}}}"#;
    list(&mut cache, "p", 0, 10, page(first)).unwrap();
    list(&mut cache, "p", 0, 10, page(second)).unwrap();
    assert_eq!(cache.get("p", 1), Some("two"));
    assert_eq!(cache.len(), 1);
}
