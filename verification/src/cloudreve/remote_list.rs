//! The workflow task list: the exchange that fetches it, and the search
//! through it for the download that was submitted from a given address.

use crate::cloudreve::request::{
    outcome_view,
    request_error_text,
    ApiRequest,
    ApiRequestView,
    Method,
    RequestError,
    RequestErrorView,
};
use crate::cloudreve::{bearer_header, text_or, ClientView, CloudreveClient};
use crate::json::{values_of, Json, JsonNumber, JsonValue};
use crate::units::{
    fraction_hundredths,
    is_one,
    number_is_one,
    progress_hundredths,
    progress_string,
    progress_text,
    size_string,
    size_text,
};
use vstd::prelude::*;

verus! {

/// The first item at or after `start` that is wanted.
pub open spec fn first_from(
    items: Seq<JsonValue>,
    wanted: spec_fn(JsonValue) -> bool,
    start: int,
) -> Option<JsonValue>
    decreases items.len() - start,
{
    if start < 0 || start >= items.len() {
        None
    } else if wanted(items[start]) {
        Some(items[start])
    } else {
        first_from(items, wanted, start + 1)
    }
}

/// Nothing is found among items of which none is wanted.
pub proof fn lemma_none_wanted(
    items: Seq<JsonValue>,
    wanted: spec_fn(JsonValue) -> bool,
    start: int,
)
    requires
        0 <= start,
        forall|i: int| start <= i < items.len() ==> !wanted(#[trigger] items[i]),
    ensures
        first_from(items, wanted, start) is None,
    decreases items.len() - start,
{
    if start < items.len() {
        lemma_none_wanted(items, wanted, start + 1);
    }
}

/// Items whose member `key` is the string `target`.
pub open spec fn with_text(key: Seq<char>, target: Seq<char>) -> spec_fn(JsonValue) -> bool {
    |item: JsonValue| item.text_member(key) == Some(target)
}

/// The first item whose member `key` is the string `target`.
pub open spec fn search_result(items: Seq<JsonValue>, key: Seq<char>, target: Seq<char>) -> Option<
    JsonValue,
> {
    first_from(items, with_text(key, target), 0)
}

/// The first item of `array` that is an object whose member `key` is the
/// string `target_value`.
pub fn object_array_search(array: &[Json], key: &str, target_value: &str) -> (r: Option<Json>)
    ensures
        r matches Some(v) ==> search_result(values_of(array@), key@, target_value@) == Some(v@),
        r is None ==> search_result(values_of(array@), key@, target_value@) is None,
{
    let ghost items = values_of(array@);
    let ghost wanted = with_text(key@, target_value@);
    let mut i: usize = 0;
    while i < array.len()
        invariant
            i <= array.len(),
            items == values_of(array@),
            wanted == with_text(key@, target_value@),
            first_from(items, wanted, 0) == first_from(items, wanted, i as int),
        decreases array.len() - i,
    {
        let hit = match array[i].get_str(key) {
            Some(s) => s.eq(target_value),
            None => false,
        };
        if hit {
            return Some(array[i].clone());
        }
        i += 1;
    }
    None
}

/// The figures of a download task, as they are shown.
#[derive(Debug, PartialEq)]
pub struct DownloadSummary {
    /// The name of the file being fetched.
    pub name: String,
    /// Its size in bytes.
    pub size: u64,
    /// Its size in binary megabytes, with two decimal places.
    pub size_text: String,
    /// Progress in hundredths of a percent.
    pub progress: u32,
    /// Progress as shown: `100`, or a percentage with two decimal places.
    pub progress_text: String,
    /// Whether the download has reached its end.
    pub complete: bool,
}

/// The mathematical value of a [`DownloadSummary`].
pub struct DownloadSummaryView {
    pub name: Seq<char>,
    pub size: u64,
    pub size_text: Seq<char>,
    pub progress: u32,
    pub progress_text: Seq<char>,
    pub complete: bool,
}

impl View for DownloadSummary {
    type V = DownloadSummaryView;

    open spec fn view(&self) -> DownloadSummaryView {
        DownloadSummaryView {
            name: self.name@,
            size: self.size,
            size_text: self.size_text@,
            progress: self.progress,
            progress_text: self.progress_text@,
            complete: self.complete,
        }
    }
}

/// What a search through a task list found.
#[derive(Debug, PartialEq)]
pub enum TaskScan {
    /// No task was submitted from the address.
    Missing,
    /// The task is registered, but its download detail is not there yet.
    Pending,
    /// The task and its figures.
    Found(DownloadSummary),
}

/// The mathematical value of a [`TaskScan`].
pub enum TaskScanView {
    Missing,
    Pending,
    Found(DownloadSummaryView),
}

impl View for TaskScan {
    type V = TaskScanView;

    open spec fn view(&self) -> TaskScanView {
        match self {
            TaskScan::Missing => TaskScanView::Missing,
            TaskScan::Pending => TaskScanView::Pending,
            TaskScan::Found(s) => TaskScanView::Found(s@),
        }
    }
}

/// Why a search for a task gave nothing to show.
#[derive(Debug, PartialEq)]
pub enum MonitorError {
    /// No task in the list was submitted from the address.
    TaskNotFound,
    /// The task list could not be had this time.
    ScanFailed(RequestError),
    /// The address or the category searched for is empty.
    EmptyQuery,
}

/// The mathematical value of a [`MonitorError`].
pub enum MonitorErrorView {
    TaskNotFound,
    ScanFailed(RequestErrorView),
    EmptyQuery,
}

impl View for MonitorError {
    type V = MonitorErrorView;

    open spec fn view(&self) -> MonitorErrorView {
        match self {
            MonitorError::TaskNotFound => MonitorErrorView::TaskNotFound,
            MonitorError::ScanFailed(e) => MonitorErrorView::ScanFailed(e@),
            MonitorError::EmptyQuery => MonitorErrorView::EmptyQuery,
        }
    }
}

/// The number of tasks asked for in one list.
pub open spec fn task_page_size() -> Seq<char> {
    "100"@
}

/// The request that lists the tasks of a category.
pub open spec fn task_list_request(client: ClientView, category: Seq<char>) -> ApiRequestView {
    ApiRequestView {
        method: Method::Get,
        url: client.base_url + "/workflow"@,
        authorization: bearer_header(client.credential.access_token),
        query: seq![("category"@, category), ("page_size"@, task_page_size())],
        body: None,
    }
}

/// The properties recorded on a task: `props` under `summary`.
pub open spec fn task_props(task: JsonValue) -> Option<JsonValue> {
    match task.member("summary"@) {
        Some(summary) => summary.member("props"@),
        None => None,
    }
}

/// Tasks whose recorded source string is `url`.
pub open spec fn from_source(url: Seq<char>) -> spec_fn(JsonValue) -> bool {
    |task: JsonValue|
        match task_props(task) {
            Some(props) => props.text_member("src_str"@) == Some(url),
            None => false,
        }
}

/// The tasks of a task-list payload: the array `tasks`, or none.
pub open spec fn tasks_of(data: JsonValue) -> Seq<JsonValue> {
    match data.member("tasks"@) {
        Some(JsonValue::Array(tasks)) => tasks,
        _ => Seq::empty(),
    }
}

/// The download detail of a task: the object `download` in its properties.
pub open spec fn task_detail(task: JsonValue) -> Option<JsonValue> {
    match task_props(task) {
        Some(props) => match props.member("download"@) {
            Some(JsonValue::Object(members)) => Some(JsonValue::Object(members)),
            _ => None,
        },
        None => None,
    }
}

/// The fraction done that a download detail reports for the file it is
/// named after: the number `progress` of the first of its `files` that
/// bears the download's name, and zero where there is none.
pub open spec fn detail_fraction(detail: JsonValue) -> JsonNumber {
    let name = text_or(detail.text_member("name"@), Seq::empty());
    let files = match detail.member("files"@) {
        Some(JsonValue::Array(files)) => files,
        _ => Seq::empty(),
    };
    match search_result(files, "name"@, name) {
        Some(file) => match file.member("progress"@) {
            Some(JsonValue::Number(n)) => n,
            _ => JsonNumber::PosInt(0),
        },
        None => JsonNumber::PosInt(0),
    }
}

/// The size in bytes that a download detail reports, zero where it gives
/// no count.
pub open spec fn detail_size(detail: JsonValue) -> u64 {
    match detail.member("size"@) {
        Some(size) => match size.unsigned() {
            Some(bytes) => bytes,
            None => 0,
        },
        None => 0,
    }
}

/// The figures of a download detail.
pub open spec fn summary_of(detail: JsonValue) -> DownloadSummaryView {
    let fraction = detail_fraction(detail);
    DownloadSummaryView {
        name: text_or(detail.text_member("name"@), Seq::empty()),
        size: detail_size(detail),
        size_text: size_text(detail_size(detail)),
        progress: fraction_hundredths(fraction) as u32,
        progress_text: progress_text(fraction),
        complete: is_one(fraction),
    }
}

/// What a search through a task-list payload for the task from `url`
/// finds. The first task from that address decides.
pub open spec fn scan_of(data: JsonValue, url: Seq<char>) -> TaskScanView {
    match first_from(tasks_of(data), from_source(url), 0) {
        Some(task) => match task_detail(task) {
            Some(detail) => TaskScanView::Found(summary_of(detail)),
            None => TaskScanView::Pending,
        },
        None => TaskScanView::Missing,
    }
}

/// What one search for the task from `url` amounts to.
pub open spec fn searched(
    category: Seq<char>,
    url: Seq<char>,
    outcome: Result<JsonValue, RequestErrorView>,
) -> Result<Option<DownloadSummaryView>, MonitorErrorView> {
    if url.len() == 0 || category.len() == 0 {
        Err(MonitorErrorView::EmptyQuery)
    } else {
        match outcome {
            Ok(data) => match scan_of(data, url) {
                TaskScanView::Found(summary) => Ok(Some(summary)),
                TaskScanView::Pending => Ok(None),
                TaskScanView::Missing => Err(MonitorErrorView::TaskNotFound),
            },
            Err(e) => Err(MonitorErrorView::ScanFailed(e)),
        }
    }
}

/// The request that one search for the task from `url` sends: the task
/// list of `category`, and none at all where the address or the category
/// is empty.
pub open spec fn search_request_of(
    client: ClientView,
    category: Seq<char>,
    url: Seq<char>,
) -> Result<ApiRequestView, MonitorErrorView> {
    if url.len() == 0 || category.len() == 0 {
        Err(MonitorErrorView::EmptyQuery)
    } else {
        Ok(task_list_request(client, category))
    }
}

/// The value of a search's request or the error in its place.
pub open spec fn search_request_view(r: Result<ApiRequest, MonitorError>) -> Result<
    ApiRequestView,
    MonitorErrorView,
> {
    match r {
        Ok(q) => Ok(q@),
        Err(e) => Err(e@),
    }
}

/// A search for an empty address or in an empty category sends nothing
/// and fails whatever a reply would have been; any other search sends its
/// request and does not fail for want of a query.
pub proof fn lemma_empty_query_sends_nothing(
    client: ClientView,
    category: Seq<char>,
    url: Seq<char>,
    outcome: Result<JsonValue, RequestErrorView>,
)
    ensures
        url.len() == 0 || category.len() == 0 ==> {
            &&& search_request_of(client, category, url) == Err::<ApiRequestView, MonitorErrorView>(
                MonitorErrorView::EmptyQuery,
            )
            &&& searched(category, url, outcome) is Err
            &&& searched(category, url, outcome)->Err_0 == MonitorErrorView::EmptyQuery
        },
        url.len() > 0 && category.len() > 0 ==> {
            &&& search_request_of(client, category, url) == Ok::<ApiRequestView, MonitorErrorView>(
                task_list_request(client, category),
            )
            &&& searched(category, url, outcome) is Err ==> searched(category, url, outcome)->Err_0
                != MonitorErrorView::EmptyQuery
        },
{
}

/// The value of a search's result.
pub open spec fn searched_view(r: Result<Option<DownloadSummary>, MonitorError>) -> Result<
    Option<DownloadSummaryView>,
    MonitorErrorView,
> {
    match r {
        Ok(Some(summary)) => Ok(Some(summary@)),
        Ok(None) => Ok(None),
        Err(e) => Err(e@),
    }
}

/// The properties recorded on a task.
fn props_of(task: &Json) -> (r: Option<&Json>)
    ensures
        r matches Some(p) ==> task_props(task@) == Some(p@),
        r is None ==> task_props(task@) is None,
{
    match task.get("summary") {
        Some(summary) => summary.get("props"),
        None => None,
    }
}

/// The figures of a download detail.
pub fn summarize(detail: &Json) -> (r: DownloadSummary)
    ensures
        r@ == summary_of(detail@),
{
    let name = match detail.get_str("name") {
        Some(n) => n,
        None => "",
    };
    proof {
        reveal_strlit("");
        assert(name@ =~= text_or(detail@.text_member("name"@), Seq::empty()));
    }
    let size: u64 = match detail.get("size") {
        Some(s) => match s.as_u64() {
            Some(bytes) => bytes,
            None => 0,
        },
        None => 0,
    };
    let listed = match detail.get("files") {
        Some(f) => f.as_array(),
        None => None,
    };
    let file = match listed {
        Some(files) => object_array_search(files.as_slice(), "name", name),
        None => {
            let none: Vec<Json> = Vec::new();
            object_array_search(none.as_slice(), "name", name)
        },
    };
    let fraction = match &file {
        Some(f) => match f.get("progress") {
            Some(p) => match p.as_number() {
                Some(n) => n,
                None => JsonNumber::PosInt(0),
            },
            None => JsonNumber::PosInt(0),
        },
        None => JsonNumber::PosInt(0),
    };
    DownloadSummary {
        name: String::from_str(name),
        size,
        size_text: size_string(size),
        progress: progress_hundredths(fraction),
        progress_text: progress_string(fraction),
        complete: number_is_one(fraction),
    }
}

/// Searches a task-list payload for the task from `url`.
pub fn scan_tasks(data: &Json, url: &str) -> (r: TaskScan)
    ensures
        r@ == scan_of(data@, url@),
{
    let listed = match data.get("tasks") {
        Some(t) => t.as_array(),
        None => None,
    };
    let tasks = match listed {
        Some(tasks) => tasks,
        None => {
            return TaskScan::Missing;
        },
    };
    let ghost items = values_of(tasks@);
    let ghost wanted = from_source(url@);
    let mut i: usize = 0;
    while i < tasks.len()
        invariant
            i <= tasks.len(),
            items == values_of(tasks@),
            items == tasks_of(data@),
            wanted == from_source(url@),
            first_from(items, wanted, 0) == first_from(items, wanted, i as int),
        decreases tasks.len() - i,
    {
        let props = props_of(&tasks[i]);
        let hit = match props {
            Some(p) => match p.get_str("src_str") {
                Some(s) => s.eq(url),
                None => false,
            },
            None => false,
        };
        if hit {
            let detail = match props {
                Some(p) => match p.get("download") {
                    Some(d) => if d.is_object() {
                        Some(d)
                    } else {
                        None
                    },
                    None => None,
                },
                None => None,
            };
            return match detail {
                Some(d) => TaskScan::Found(summarize(d)),
                None => TaskScan::Pending,
            };
        }
        i += 1;
    }
    TaskScan::Missing
}

impl CloudreveClient {
    /// The request that lists the workflow tasks of `category`.
    pub fn remote_list_request(&self, category: &str) -> (r: ApiRequest)
        ensures
            r@ == task_list_request(self@, category@),
    {
        let mut r = self.request_builder(Method::Get, "/workflow");
        let mut query: Vec<(String, String)> = Vec::new();
        query.push((String::from_str("category"), String::from_str(category)));
        query.push((String::from_str("page_size"), String::from_str("100")));
        r.query = query;
        assert(r@.query =~= seq![("category"@, category@), ("page_size"@, task_page_size())]);
        r
    }

    /// Settles a task-list exchange from its decoded reply: the payload as
    /// it came, or the error.
    pub fn remote_list(&self, outcome: Result<Json, RequestError>) -> (r: Result<
        Json,
        RequestError,
    >)
        ensures
            outcome_view(r) == outcome_view(outcome),
    {
        outcome
    }

    /// The request that one search of the task list of `category` for the
    /// download submitted from `url` sends. With an empty address or an
    /// empty category there is nothing to look for, and nothing to send.
    pub fn search_request(&self, category: &str, url: &str) -> (r: Result<
        ApiRequest,
        MonitorError,
    >)
        ensures
            search_request_view(r) == search_request_of(self@, category@, url@),
    {
        if url.is_empty() || category.is_empty() {
            Err(MonitorError::EmptyQuery)
        } else {
            Ok(self.remote_list_request(category))
        }
    }

    /// One search of the task list of `category` for the download that was
    /// submitted from `url`, settled from the decoded reply of the request
    /// that [`CloudreveClient::search_request`] gave.
    ///
    /// `Ok(Some(..))` carries the task's figures. `Ok(None)` says that the
    /// task is registered without its detail: the search is to be made
    /// again after an interval. A list without the task is
    /// [`MonitorError::TaskNotFound`].
    pub fn search_remote_list_by_url(
        &self,
        category: &str,
        url: &str,
        outcome: Result<Json, RequestError>,
    ) -> (r: Result<Option<DownloadSummary>, MonitorError>)
        ensures
            searched_view(r) == searched(category@, url@, outcome_view(outcome)),
    {
        if url.is_empty() || category.is_empty() {
            return Err(MonitorError::EmptyQuery);
        }
        match self.remote_list(outcome) {
            Ok(data) => match scan_tasks(&data, url) {
                TaskScan::Found(summary) => Ok(Some(summary)),
                TaskScan::Pending => Ok(None),
                TaskScan::Missing => Err(MonitorError::TaskNotFound),
            },
            Err(e) => Err(MonitorError::ScanFailed(e)),
        }
    }
}

/// A monitoring error as a line of text.
pub open spec fn monitor_error_text(e: MonitorErrorView) -> Seq<char> {
    match e {
        MonitorErrorView::TaskNotFound => "Task not found"@,
        MonitorErrorView::EmptyQuery => "URL or category is empty"@,
        MonitorErrorView::ScanFailed(e) => "Failed to list directory: "@ + request_error_text(e),
    }
}

impl MonitorError {
    /// The error as a line of text.
    pub fn message(&self) -> (r: String)
        ensures
            r@ == monitor_error_text(self@),
    {
        match self {
            MonitorError::TaskNotFound => String::from_str("Task not found"),
            MonitorError::EmptyQuery => String::from_str("URL or category is empty"),
            MonitorError::ScanFailed(e) => {
                let inner = e.message();
                crate::text::join("Failed to list directory: ", inner.as_str())
            },
        }
    }
}

} // verus!
