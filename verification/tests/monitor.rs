use cloudreve_bot::cloudreve::file_source::SourceError;
use cloudreve_bot::cloudreve::remote_download::SubmitError;
use cloudreve_bot::cloudreve::remote_list::{
    object_array_search, scan_tasks, summarize, DownloadSummary, MonitorError, TaskScan,
};
use cloudreve_bot::cloudreve::request::{decode_reply, Method, Reply, RequestError};
use cloudreve_bot::cloudreve::CloudreveClient;
use cloudreve_bot::json::{Json, JsonNumber};
use cloudreve_bot::monitor::{DownloadMonitor, MonitorState, MonitorStep, POLL_INTERVAL};

const URL: &str = "https://example.com/video.mp4";

fn tasks(body: &str) -> Result<Json, RequestError> {
    decode_reply(&Reply::Received { status: 200, body: body.to_string() })
}

fn task_list(progress: &str) -> String {
    format!(
        r#"{{"code":0,"data":{{"tasks":[
            {{"id":"1","summary":{{"props":{{"src_str":"https://example.com/other.bin","download":{{"name":"other.bin","size":1,"files":[]}}}}}}}},
            {{"id":"2","summary":{{"props":{{"src_str":"{}","download":{{"name":"video.mp4","size":2097152,"files":[
                {{"name":"cover.jpg","progress":0.75}},
                {{"name":"video.mp4","progress":{}}},
                {{"name":"video.mp4","progress":0.01}}
            ]}}}}}}}}
        ]}}}}"#,
        URL, progress
    )
}

fn pending_list() -> String {
    format!(
        r#"{{"code":0,"data":{{"tasks":[{{"summary":{{"props":{{"src_str":"{}"}}}}}}]}}}}"#,
        URL
    )
}

fn summary(progress: u32, progress_text: &str, complete: bool) -> DownloadSummary {
    DownloadSummary {
        name: "video.mp4".to_string(),
        size: 2_097_152,
        size_text: "2.00 MB".to_string(),
        progress,
        progress_text: progress_text.to_string(),
        complete,
    }
}

fn polling() -> (CloudreveClient, DownloadMonitor) {
    let client = CloudreveClient::new("http://h".to_string());
    let mut monitor = DownloadMonitor::new(URL, "downloading");
    assert_eq!(monitor.on_submit(&client, tasks(r#"{"code":0}"#)), Ok(()));
    assert_eq!(monitor.state(), MonitorState::Polling);
    (client, monitor)
}

fn named(name: &str, progress: f64) -> Json {
    Json::Object(vec![
        ("name".to_string(), Json::Str(name.to_string())),
        ("progress".to_string(), Json::Number(JsonNumber::Float(progress.to_bits()))),
    ])
}

#[test]
fn search_returns_the_first_object_with_the_text() {
    let array = vec![
        Json::Str("a".to_string()),
        Json::Object(vec![("name".to_string(), Json::Number(JsonNumber::PosInt(1)))]),
        Json::Object(vec![("other".to_string(), Json::Str("a".to_string()))]),
        named("b", 0.1),
        named("a", 0.2),
        named("a", 0.3),
    ];
    assert_eq!(object_array_search(&array, "name", "a"), Some(named("a", 0.2)));
    assert_eq!(object_array_search(&array, "name", "b"), Some(named("b", 0.1)));
    assert_eq!(object_array_search(&array, "name", "c"), None);
    assert_eq!(object_array_search(&array, "other", "a"), Some(array[2].clone()));
    assert_eq!(object_array_search(&[], "name", "a"), None);
}

#[test]
fn task_list_request_asks_for_a_hundred_tasks_of_the_category() {
    let client = CloudreveClient::new("http://h".to_string());
    let request = client.remote_list_request("downloading");
    assert_eq!(request.method, Method::Get);
    assert_eq!(request.url, "http://h/api/v4/workflow");
    assert_eq!(
        request.query,
        vec![
            ("category".to_string(), "downloading".to_string()),
            ("page_size".to_string(), "100".to_string()),
        ]
    );
    assert_eq!(request.body, None);
}

#[test]
fn task_list_passes_through() {
    let client = CloudreveClient::new("http://h".to_string());
    assert_eq!(client.remote_list(tasks(r#"{"code":0,"data":[1]}"#)),
        Ok(Json::Array(vec![Json::Number(JsonNumber::PosInt(1))])));
    assert_eq!(
        client.remote_list(tasks(r#"{"code":9,"msg":"m"}"#)),
        Err(RequestError::Api { code: 9, msg: "m".to_string() })
    );
}

#[test]
fn scan_finds_the_task_by_its_source() {
    let data = tasks(&task_list("0.5")).unwrap();
    assert_eq!(scan_tasks(&data, URL), TaskScan::Found(summary(5_000, "50.00", false)));
    assert_eq!(
        scan_tasks(&data, "https://example.com/other.bin"),
        TaskScan::Found(DownloadSummary {
            name: "other.bin".to_string(),
            size: 1,
            size_text: "0.00 MB".to_string(),
            progress: 0,
            progress_text: "0.00".to_string(),
            complete: false,
        })
    );
    assert_eq!(scan_tasks(&data, "https://example.com/none"), TaskScan::Missing);
    assert_eq!(scan_tasks(&data, ""), TaskScan::Missing);
}

#[test]
fn progress_of_exactly_one_is_complete_and_reads_one_hundred() {
    let data = tasks(&task_list("1.0")).unwrap();
    assert_eq!(scan_tasks(&data, URL), TaskScan::Found(summary(10_000, "100", true)));
    let data = tasks(&task_list("1")).unwrap();
    assert_eq!(scan_tasks(&data, URL), TaskScan::Found(summary(10_000, "100", true)));
    let data = tasks(&task_list("0.99999")).unwrap();
    assert_eq!(scan_tasks(&data, URL), TaskScan::Found(summary(10_000, "100.00", false)));
}

#[test]
fn task_without_detail_is_pending() {
    let data = tasks(&pending_list()).unwrap();
    assert_eq!(scan_tasks(&data, URL), TaskScan::Pending);
    let body = format!(
        r#"{{"code":0,"data":{{"tasks":[{{"summary":{{"props":{{"src_str":"{}","download":"soon"}}}}}}]}}}}"#,
        URL
    );
    assert_eq!(scan_tasks(&tasks(&body).unwrap(), URL), TaskScan::Pending);
}

#[test]
fn first_task_from_the_source_decides() {
    let body = format!(
        r#"{{"code":0,"data":{{"tasks":[
            {{"summary":{{"props":{{"src_str":"{u}"}}}}}},
            {{"summary":{{"props":{{"src_str":"{u}","download":{{"name":"v"}}}}}}}}
        ]}}}}"#,
        u = URL
    );
    assert_eq!(scan_tasks(&tasks(&body).unwrap(), URL), TaskScan::Pending);
}

#[test]
fn payload_without_tasks_has_no_task() {
    for body in [
        r#"{"code":0}"#,
        r#"{"code":0,"data":{"tasks":{}}}"#,
        r#"{"code":0,"data":{"tasks":[]}}"#,
        r#"{"code":0,"data":{"tasks":[{"summary":{"props":{"src_str":5}}},{"summary":[]},{"summary":{"props":null}},3]}}"#,
    ] {
        assert_eq!(scan_tasks(&tasks(body).unwrap(), URL), TaskScan::Missing);
    }
}

#[test]
fn detail_is_read_with_its_defaults() {
    let detail = tasks(r#"{"code":0,"data":{}}"#).unwrap();
    assert_eq!(
        summarize(&detail),
        DownloadSummary {
            name: String::new(),
            size: 0,
            size_text: "0.00 MB".to_string(),
            progress: 0,
            progress_text: "0.00".to_string(),
            complete: false,
        }
    );
    let detail = tasks(
        r#"{"code":0,"data":{"name":"n","size":-4,"files":[{"name":"n","progress":"half"}]}}"#,
    )
    .unwrap();
    assert_eq!(summarize(&detail).progress_text, "0.00");
    assert_eq!(summarize(&detail).size, 0);
    let detail = tasks(
        r#"{"code":0,"data":{"size":1572864,"files":[{"name":"","progress":0.25}]}}"#,
    )
    .unwrap();
    assert_eq!(summarize(&detail).progress_text, "25.00");
    assert_eq!(summarize(&detail).size_text, "1.50 MB");
    let detail =
        tasks(r#"{"code":0,"data":{"name":"n","size":1.5,"files":{"name":"n"}}}"#).unwrap();
    assert_eq!(summarize(&detail).size, 0);
    assert_eq!(summarize(&detail).progress, 0);
}

#[test]
fn search_by_url_settles_each_outcome() {
    let client = CloudreveClient::new("http://h".to_string());
    assert_eq!(
        client.search_remote_list_by_url("downloading", URL, tasks(&task_list("0.25"))),
        Ok(Some(summary(2_500, "25.00", false)))
    );
    assert_eq!(
        client.search_remote_list_by_url("downloading", URL, tasks(&pending_list())),
        Ok(None)
    );
    assert_eq!(
        client.search_remote_list_by_url("downloading", "https://x/none", tasks(&task_list("0.25"))),
        Err(MonitorError::TaskNotFound)
    );
    assert_eq!(
        client.search_remote_list_by_url("", URL, tasks(&task_list("0.25"))),
        Err(MonitorError::EmptyQuery)
    );
    assert_eq!(
        client.search_remote_list_by_url("downloading", "", tasks(&task_list("0.25"))),
        Err(MonitorError::EmptyQuery)
    );
    assert_eq!(
        client.search_remote_list_by_url("downloading", URL, tasks(r#"{"code":5,"msg":"busy"}"#)),
        Err(MonitorError::ScanFailed(RequestError::Api { code: 5, msg: "busy".to_string() }))
    );
}

#[test]
fn monitor_error_reads_as_text() {
    assert_eq!(MonitorError::TaskNotFound.message(), "Task not found");
    assert_eq!(MonitorError::EmptyQuery.message(), "URL or category is empty");
    assert_eq!(
        MonitorError::ScanFailed(RequestError::Api { code: 5, msg: "busy".to_string() }).message(),
        "Failed to list directory: busy"
    );
}

#[test]
fn monitor_starts_submitted_and_polls_once_the_backend_took_the_download() {
    let client = CloudreveClient::new("http://h".to_string());
    let mut monitor = DownloadMonitor::new(URL, "downloading");
    assert_eq!(monitor.state(), MonitorState::Submitted);
    assert_eq!(monitor.source_url(), URL);
    assert_eq!(monitor.category(), "downloading");
    let request = monitor.submit_request(&client, Some("cloudreve://my/inbox")).expect("a request");
    assert_eq!(request.method, Method::Post);
    assert_eq!(request.url, "http://h/api/v4/workflow/download");
    assert_eq!(
        request.body,
        Some(Json::Object(vec![
            ("dst".to_string(), Json::Str("cloudreve://my/inbox".to_string())),
            ("src".to_string(), Json::Array(vec![Json::Str(URL.to_string())])),
        ]))
    );
    assert_eq!(monitor.state(), MonitorState::Submitted);
    assert_eq!(monitor.on_scan(&client, tasks(&task_list("0.5"))), MonitorStep::Stopped);
    assert_eq!(monitor.on_submit(&client, tasks(r#"{"code":0,"data":[]}"#)), Ok(()));
    assert_eq!(monitor.state(), MonitorState::Polling);
    let scan = monitor.scan_request(&client).expect("a request");
    assert_eq!(monitor.state(), MonitorState::Polling);
    assert_eq!(scan.url, "http://h/api/v4/workflow");
    assert_eq!(scan.query[0], ("category".to_string(), "downloading".to_string()));
}

#[test]
fn monitor_fails_without_a_destination() {
    let client = CloudreveClient::new("http://h".to_string());
    let mut monitor = DownloadMonitor::new(URL, "downloading");
    assert_eq!(monitor.submit_request(&client, None), Err(SubmitError::NoDestination));
    assert_eq!(monitor.state(), MonitorState::Failed);
    assert_eq!(SubmitError::NoDestination.message(), "No download destination configured");
}

#[test]
fn monitor_fails_when_the_submission_is_refused() {
    let client = CloudreveClient::new("http://h".to_string());
    let mut monitor = DownloadMonitor::new(URL, "downloading");
    let result = monitor.on_submit(&client, tasks(r#"{"code":40010,"msg":"quota"}"#));
    assert_eq!(
        result,
        Err(SubmitError::Request(RequestError::Api { code: 40010, msg: "quota".to_string() }))
    );
    assert_eq!(result.unwrap_err().message(), "Failed to download file: quota");
    assert_eq!(monitor.state(), MonitorState::Failed);
    assert_eq!(monitor.on_scan(&client, tasks(&task_list("0.5"))), MonitorStep::Stopped);
    assert_eq!(monitor.state(), MonitorState::Failed);
}

#[test]
fn monitor_reports_progress_on_every_scan() {
    let (client, mut monitor) = polling();
    for _ in 0..3 {
        let step = monitor.on_scan(&client, tasks(&task_list("0.5")));
        assert_eq!(step, MonitorStep::Progress(summary(5_000, "50.00", false)));
        assert_eq!(step.delay(), Some(5));
        assert_eq!(monitor.state(), MonitorState::Polling);
    }
    assert_eq!(POLL_INTERVAL, 5);
}

#[test]
fn monitor_terminates_at_exactly_one_and_reports_one_hundred() {
    let (client, mut monitor) = polling();
    let step = monitor.on_scan(&client, tasks(&task_list("1.0")));
    assert_eq!(step, MonitorStep::Completed(summary(10_000, "100", true)));
    assert_eq!(step.delay(), None);
    assert_eq!(monitor.state(), MonitorState::Completed);
    assert_eq!(monitor.on_scan(&client, tasks(&task_list("0.5"))), MonitorStep::Stopped);
    assert_eq!(monitor.state(), MonitorState::Completed);
}

#[test]
fn monitor_schedules_one_more_scan_for_a_task_without_detail() {
    let (client, mut monitor) = polling();
    let step = monitor.on_scan(&client, tasks(&pending_list()));
    assert_eq!(step, MonitorStep::Pending);
    assert_eq!(step.delay(), Some(5));
    assert_eq!(monitor.state(), MonitorState::Polling);
    let step = monitor.on_scan(&client, tasks(&task_list("0.125")));
    assert_eq!(step, MonitorStep::Progress(summary(1_250, "12.50", false)));
}

#[test]
fn monitor_gives_up_after_one_scan_without_the_task() {
    let (client, mut monitor) = polling();
    let body = r#"{"code":0,"data":{"tasks":[{"summary":{"props":{"src_str":"https://example.com/else"}}}]}}"#;
    let step = monitor.on_scan(&client, tasks(body));
    assert_eq!(step, MonitorStep::Failed(MonitorError::TaskNotFound));
    assert_eq!(step.delay(), None);
    assert_eq!(monitor.state(), MonitorState::AbandonedNotFound);
    assert_eq!(monitor.on_scan(&client, tasks(&task_list("0.5"))), MonitorStep::Stopped);
}

#[test]
fn monitor_retries_after_a_failed_scan() {
    let (client, mut monitor) = polling();
    let step = monitor.on_scan(&client, decode_reply(&Reply::Unreachable("reset".to_string())));
    assert_eq!(
        step,
        MonitorStep::Retry(MonitorError::ScanFailed(RequestError::Transport {
            status: None,
            detail: "reset".to_string()
        }))
    );
    assert_eq!(step.delay(), Some(5));
    assert_eq!(monitor.state(), MonitorState::Polling);
    let step = monitor.on_scan(&client, tasks("garbage"));
    assert_eq!(step.delay(), Some(5));
    assert_eq!(monitor.state(), MonitorState::Polling);
}

#[test]
fn search_for_nothing_sends_no_request() {
    let client = CloudreveClient::new("http://h".to_string());
    assert_eq!(client.search_request("downloading", ""), Err(MonitorError::EmptyQuery));
    assert_eq!(client.search_request("", URL), Err(MonitorError::EmptyQuery));
    assert_eq!(client.search_request("", ""), Err(MonitorError::EmptyQuery));
    assert_eq!(
        client.search_request("", URL).unwrap_err().message(),
        "URL or category is empty"
    );
    assert_eq!(
        client.search_request("downloading", URL),
        Ok(client.remote_list_request("downloading"))
    );
}

#[test]
fn monitor_with_nothing_to_look_for_sends_no_scan() {
    let client = CloudreveClient::new("http://h".to_string());
    for (url, category) in [("", "downloading"), (URL, ""), ("", "")] {
        let mut monitor = DownloadMonitor::new(url, category);
        assert_eq!(monitor.scan_request(&client), Err(MonitorError::EmptyQuery));
        assert_eq!(monitor.state(), MonitorState::Submitted);
        assert_eq!(monitor.on_submit(&client, tasks(r#"{"code":0}"#)), Ok(()));
        assert_eq!(monitor.state(), MonitorState::Polling);
        assert_eq!(monitor.scan_request(&client), Err(MonitorError::EmptyQuery));
        assert_eq!(monitor.state(), MonitorState::Failed);
        assert_eq!(monitor.on_scan(&client, tasks(&task_list("0.5"))), MonitorStep::Stopped);
    }
}

#[test]
fn monitor_with_nothing_to_look_for_fails() {
    let client = CloudreveClient::new("http://h".to_string());
    let mut monitor = DownloadMonitor::new("", "downloading");
    assert_eq!(monitor.on_submit(&client, tasks(r#"{"code":0}"#)), Ok(()));
    let step = monitor.on_scan(&client, tasks(&task_list("0.5")));
    assert_eq!(step, MonitorStep::Failed(MonitorError::EmptyQuery));
    assert_eq!(monitor.state(), MonitorState::Failed);
}

#[test]
fn download_request_is_signed_and_names_source_and_destination() {
    let mut client = CloudreveClient::new("http://h".to_string());
    client
        .login(tasks(r#"{"code":0,"data":{"token":{"access_token":"a","refresh_token":"r"}}}"#))
        .unwrap();
    let request = client.remote_download_request(URL, Some("cloudreve://my")).unwrap();
    assert_eq!(request.authorization, Some("Bearer a".to_string()));
    assert!(request.query.is_empty());
    assert_eq!(client.remote_download_request(URL, None), Err(SubmitError::NoDestination));
    assert_eq!(client.remote_download(tasks(r#"{"code":0,"data":"ok"}"#)),
        Ok(Json::Str("ok".to_string())));
}

#[test]
fn file_source_is_the_url_of_the_first_record() {
    let client = CloudreveClient::new("http://h".to_string());
    let request = client.list_file_source_request("cloudreve://my/a.txt");
    assert_eq!(request.method, Method::Put);
    assert_eq!(request.url, "http://h/api/v4/file/source");
    assert_eq!(
        request.body,
        Some(Json::Object(vec![(
            "uris".to_string(),
            Json::Array(vec![Json::Str("cloudreve://my/a.txt".to_string())])
        )]))
    );
    assert_eq!(
        client.list_file_source(tasks(
            r#"{"code":0,"data":[{"url":"https://dl/1"},{"url":"https://dl/2"}]}"#
        )),
        Ok("https://dl/1".to_string())
    );
    for body in [
        r#"{"code":0,"data":[]}"#,
        r#"{"code":0,"data":[{"link":"x"},{"url":"https://dl/2"}]}"#,
        r#"{"code":0,"data":[{"url":5}]}"#,
        r#"{"code":0,"data":{"url":"https://dl/1"}}"#,
        r#"{"code":0}"#,
    ] {
        assert_eq!(client.list_file_source(tasks(body)), Err(SourceError::NoSource));
    }
    assert_eq!(SourceError::NoSource.message(), "No file source found");
    let refused = client.list_file_source(tasks(r#"{"code":403,"msg":"denied"}"#));
    assert_eq!(
        refused,
        Err(SourceError::Request(RequestError::Api { code: 403, msg: "denied".to_string() }))
    );
    assert_eq!(refused.unwrap_err().message(), "Failed to list files: denied");
}
