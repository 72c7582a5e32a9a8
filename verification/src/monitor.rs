//! The supervision of one remote download, from its submission to its end.
//!
//! The monitor decides; the caller acts. After the submission the caller
//! waits one interval, sends the request that
//! [`DownloadMonitor::scan_request`] gives and hands the decoded reply to
//! [`DownloadMonitor::on_scan`], and goes on doing so for as long as the
//! step it gets back names a delay. Where `scan_request` gives no request,
//! nothing is sent and the monitoring is over.

use crate::cloudreve::remote_download::{
    download_request,
    submission_view,
    SubmitError,
    SubmitErrorView,
};
use crate::cloudreve::remote_list::{
    detail_fraction,
    first_from,
    from_source,
    lemma_none_wanted,
    search_request_of,
    search_request_view,
    searched,
    summary_of,
    task_detail,
    tasks_of,
    DownloadSummary,
    DownloadSummaryView,
    MonitorError,
    MonitorErrorView,
};
use crate::cloudreve::request::{
    outcome_view,
    ApiRequest,
    ApiRequestView,
    RequestError,
    RequestErrorView,
};
use crate::cloudreve::{ClientView, CloudreveClient};
use crate::json::{Json, JsonValue};
use crate::units::{is_one, FULL};
use vstd::prelude::*;

verus! {

/// The time between two scans of the task list.
pub const POLL_INTERVAL: u64 = 5;

/// Where a monitored download stands.
#[derive(Clone, Copy, Debug, PartialEq, Eq, Structural)]
pub enum MonitorState {
    /// Created; the download is yet to be handed to the backend.
    Submitted,
    /// Handed over; the task list is being scanned.
    Polling,
    /// The download reached its end.
    Completed,
    /// The download could not be handed over or searched for.
    Failed,
    /// The task list does not know the download.
    AbandonedNotFound,
}

/// What the caller is to do after a scan.
#[derive(Debug, PartialEq)]
pub enum MonitorStep {
    /// Show these figures, wait one interval and scan again.
    Progress(DownloadSummary),
    /// The task has no detail yet: wait one interval and scan again.
    Pending,
    /// The scan failed: wait one interval and scan again.
    Retry(MonitorError),
    /// Show these figures and stop: the download is complete.
    Completed(DownloadSummary),
    /// Stop: the download is lost.
    Failed(MonitorError),
    /// Nothing to do: the monitor is not polling.
    Stopped,
}

/// The mathematical value of a [`MonitorStep`].
pub enum MonitorStepView {
    Progress(DownloadSummaryView),
    Pending,
    Retry(MonitorErrorView),
    Completed(DownloadSummaryView),
    Failed(MonitorErrorView),
    Stopped,
}

impl View for MonitorStep {
    type V = MonitorStepView;

    open spec fn view(&self) -> MonitorStepView {
        match self {
            MonitorStep::Progress(s) => MonitorStepView::Progress(s@),
            MonitorStep::Pending => MonitorStepView::Pending,
            MonitorStep::Retry(e) => MonitorStepView::Retry(e@),
            MonitorStep::Completed(s) => MonitorStepView::Completed(s@),
            MonitorStep::Failed(e) => MonitorStepView::Failed(e@),
            MonitorStep::Stopped => MonitorStepView::Stopped,
        }
    }
}

/// The monitor of one download, known by the address it is fetched from.
#[derive(Debug)]
pub struct DownloadMonitor {
    source_url: String,
    category: String,
    state: MonitorState,
}

/// The mathematical value of a [`DownloadMonitor`].
pub struct MonitorView {
    pub source_url: Seq<char>,
    pub category: Seq<char>,
    pub state: MonitorState,
}

impl View for DownloadMonitor {
    type V = MonitorView;

    closed spec fn view(&self) -> MonitorView {
        MonitorView { source_url: self.source_url@, category: self.category@, state: self.state }
    }
}

/// The step that a scan settled as `outcome` calls for.
pub open spec fn step_of(
    m: MonitorView,
    outcome: Result<JsonValue, RequestErrorView>,
) -> MonitorStepView {
    if m.state != MonitorState::Polling {
        MonitorStepView::Stopped
    } else {
        match searched(m.category, m.source_url, outcome) {
            Ok(Some(summary)) => if summary.complete {
                MonitorStepView::Completed(summary)
            } else {
                MonitorStepView::Progress(summary)
            },
            Ok(None) => MonitorStepView::Pending,
            Err(MonitorErrorView::ScanFailed(e)) => MonitorStepView::Retry(
                MonitorErrorView::ScanFailed(e),
            ),
            Err(e) => MonitorStepView::Failed(e),
        }
    }
}

/// Where the monitor stands after a step.
pub open spec fn state_after(before: MonitorState, step: MonitorStepView) -> MonitorState {
    match step {
        MonitorStepView::Progress(_) => MonitorState::Polling,
        MonitorStepView::Pending => MonitorState::Polling,
        MonitorStepView::Retry(_) => MonitorState::Polling,
        MonitorStepView::Completed(_) => MonitorState::Completed,
        MonitorStepView::Failed(MonitorErrorView::TaskNotFound) => MonitorState::AbandonedNotFound,
        MonitorStepView::Failed(_) => MonitorState::Failed,
        MonitorStepView::Stopped => before,
    }
}

/// How long to wait before the next scan; `None` where there is none.
pub open spec fn delay_of(step: MonitorStepView) -> Option<u64> {
    match step {
        MonitorStepView::Progress(_) => Some(POLL_INTERVAL),
        MonitorStepView::Pending => Some(POLL_INTERVAL),
        MonitorStepView::Retry(_) => Some(POLL_INTERVAL),
        _ => None,
    }
}

/// Whether the monitor has an address and a category to look for.
pub open spec fn has_query(m: MonitorView) -> bool {
    m.source_url.len() > 0 && m.category.len() > 0
}

/// Where the monitor stands once it was asked for the next scan's
/// request: a polling monitor without a query has failed.
pub open spec fn state_scanning(m: MonitorView) -> MonitorState {
    if m.state == MonitorState::Polling && !has_query(m) {
        MonitorState::Failed
    } else {
        m.state
    }
}

/// A monitor without an address or a category sends no scan: it gives no
/// request, the scan it would have made fails whatever the reply, and a
/// polling monitor ends as failed either way.
pub proof fn lemma_no_query_no_scan(
    m: MonitorView,
    client: ClientView,
    outcome: Result<JsonValue, RequestErrorView>,
)
    requires
        !has_query(m),
    ensures
        search_request_of(client, m.category, m.source_url) == Err::<
            ApiRequestView,
            MonitorErrorView,
        >(MonitorErrorView::EmptyQuery),
        m.state == MonitorState::Polling ==> {
            &&& state_scanning(m) == MonitorState::Failed
            &&& step_of(m, outcome) == MonitorStepView::Failed(MonitorErrorView::EmptyQuery)
            &&& state_after(m.state, step_of(m, outcome)) == MonitorState::Failed
        },
{
}

/// Where the monitor stands once the submission is settled.
pub open spec fn state_submitted<T, E>(
    before: MonitorState,
    settled: Result<T, E>,
) -> MonitorState {
    if before == MonitorState::Submitted {
        match settled {
            Ok(_) => MonitorState::Polling,
            Err(_) => MonitorState::Failed,
        }
    } else {
        before
    }
}

/// A task whose file stands at exactly one ends the polling, and what is
/// shown is `100`.
pub proof fn lemma_complete_at_one(
    m: MonitorView,
    data: JsonValue,
    task: JsonValue,
    detail: JsonValue,
)
    requires
        m.state == MonitorState::Polling,
        m.source_url.len() > 0,
        m.category.len() > 0,
        first_from(tasks_of(data), from_source(m.source_url), 0) == Some(task),
        task_detail(task) == Some(detail),
        is_one(detail_fraction(detail)),
    ensures
        step_of(m, Ok(data)) == MonitorStepView::Completed(summary_of(detail)),
        summary_of(detail).progress_text == seq!['1', '0', '0'],
        summary_of(detail).progress == FULL,
        state_after(m.state, step_of(m, Ok(data))) == MonitorState::Completed,
        delay_of(step_of(m, Ok(data))) is None,
{
}

/// A task that is listed without its download detail is no error: the
/// scan calls for one more scan after one interval, and the monitor goes
/// on polling.
pub proof fn lemma_pending_rescans(m: MonitorView, data: JsonValue, task: JsonValue)
    requires
        m.state == MonitorState::Polling,
        m.source_url.len() > 0,
        m.category.len() > 0,
        first_from(tasks_of(data), from_source(m.source_url), 0) == Some(task),
        task_detail(task) is None,
    ensures
        step_of(m, Ok(data)) == MonitorStepView::Pending,
        delay_of(step_of(m, Ok(data))) == Some(POLL_INTERVAL),
        state_after(m.state, step_of(m, Ok(data))) == MonitorState::Polling,
{
}

/// A list in which no task was submitted from the address ends the
/// monitoring at once: the task is not found, and no scan follows.
pub proof fn lemma_missing_abandons(m: MonitorView, data: JsonValue)
    requires
        m.state == MonitorState::Polling,
        m.source_url.len() > 0,
        m.category.len() > 0,
        forall|i: int|
            0 <= i < tasks_of(data).len() ==> !from_source(m.source_url)(
                #[trigger] tasks_of(data)[i],
            ),
    ensures
        step_of(m, Ok(data)) == MonitorStepView::Failed(MonitorErrorView::TaskNotFound),
        delay_of(step_of(m, Ok(data))) is None,
        state_after(m.state, step_of(m, Ok(data))) == MonitorState::AbandonedNotFound,
{
    lemma_none_wanted(tasks_of(data), from_source(m.source_url), 0);
}

/// A monitor that is not polling stays where it is, whatever a scan shows.
pub proof fn lemma_stopped_stays(m: MonitorView, outcome: Result<JsonValue, RequestErrorView>)
    requires
        m.state != MonitorState::Polling,
    ensures
        step_of(m, outcome) == MonitorStepView::Stopped,
        delay_of(step_of(m, outcome)) is None,
        state_after(m.state, step_of(m, outcome)) == m.state,
{
}

/// A scan that fails is tried again: the monitor goes on polling.
pub proof fn lemma_failed_scan_retries(m: MonitorView, e: RequestErrorView)
    requires
        m.state == MonitorState::Polling,
        m.source_url.len() > 0,
        m.category.len() > 0,
    ensures
        step_of(m, Err(e)) == MonitorStepView::Retry(MonitorErrorView::ScanFailed(e)),
        delay_of(step_of(m, Err(e))) == Some(POLL_INTERVAL),
        state_after(m.state, step_of(m, Err(e))) == MonitorState::Polling,
{
}

impl MonitorStep {
    /// How long to wait before the next scan; `None` where there is none.
    pub fn delay(&self) -> (r: Option<u64>)
        ensures
            r == delay_of(self@),
    {
        match self {
            MonitorStep::Progress(_) => Some(POLL_INTERVAL),
            MonitorStep::Pending => Some(POLL_INTERVAL),
            MonitorStep::Retry(_) => Some(POLL_INTERVAL),
            _ => None,
        }
    }
}

impl DownloadMonitor {
    /// A monitor for the download fetched from `source_url`, to be looked
    /// for among the tasks of `category`.
    pub fn new(source_url: &str, category: &str) -> (r: Self)
        ensures
            r@ == (MonitorView {
                source_url: source_url@,
                category: category@,
                state: MonitorState::Submitted,
            }),
    {
        DownloadMonitor {
            source_url: String::from_str(source_url),
            category: String::from_str(category),
            state: MonitorState::Submitted,
        }
    }

    /// Where the monitor stands.
    pub fn state(&self) -> (r: MonitorState)
        ensures
            r == self@.state,
    {
        self.state
    }

    /// The address that the download is fetched from.
    pub fn source_url(&self) -> (r: &str)
        ensures
            r@ == self@.source_url,
    {
        self.source_url.as_str()
    }

    /// The category whose tasks are scanned.
    pub fn category(&self) -> (r: &str)
        ensures
            r@ == self@.category,
    {
        self.category.as_str()
    }

    /// The request that hands the download to the backend, to be stored
    /// under `dst`. Without a destination a monitor that was waiting to
    /// submit has failed.
    pub fn submit_request(&mut self, client: &CloudreveClient, dst: Option<&str>) -> (r: Result<
        ApiRequest,
        SubmitError,
    >)
        ensures
            submission_view(r) == download_request(
                client@,
                old(self)@.source_url,
                match dst {
                    Some(d) => Some(d@),
                    None => None,
                },
            ),
            final(self)@ == (MonitorView {
                state: if r is Err && old(self)@.state == MonitorState::Submitted {
                    MonitorState::Failed
                } else {
                    old(self)@.state
                },
                ..old(self)@
            }),
    {
        let r = client.remote_download_request(self.source_url.as_str(), dst);
        if r.is_err() && self.state == MonitorState::Submitted {
            self.state = MonitorState::Failed;
        }
        r
    }

    /// Settles the submission from its decoded reply. A monitor that was
    /// waiting to submit starts polling if the backend took the download,
    /// and has failed if not.
    pub fn on_submit(
        &mut self,
        client: &CloudreveClient,
        outcome: Result<Json, RequestError>,
    ) -> (r:
        Result<(), SubmitError>)
        ensures
            match r {
                Ok(()) => outcome_view(outcome) is Ok,
                Err(e) => outcome_view(outcome) is Err && e@ == SubmitErrorView::Request(
                    outcome_view(outcome)->Err_0,
                ),
            },
            final(self)@ == (MonitorView {
                state: state_submitted(old(self)@.state, outcome_view(outcome)),
                ..old(self)@
            }),
    {
        let settled = client.remote_download(outcome);
        match settled {
            Ok(_) => {
                if self.state == MonitorState::Submitted {
                    self.state = MonitorState::Polling;
                }
                Ok(())
            },
            Err(e) => {
                if self.state == MonitorState::Submitted {
                    self.state = MonitorState::Failed;
                }
                Err(e)
            },
        }
    }

    /// The request that fetches the task list to scan. A monitor with an
    /// empty address or category has nothing to look for: it gives no
    /// request, and if it was polling it has failed.
    pub fn scan_request(&mut self, client: &CloudreveClient) -> (r: Result<
        ApiRequest,
        MonitorError,
    >)
        ensures
            search_request_view(r) == search_request_of(
                client@,
                old(self)@.category,
                old(self)@.source_url,
            ),
            final(self)@ == (MonitorView {
                state: state_scanning(old(self)@),
                ..old(self)@
            }),
    {
        let r = client.search_request(self.category.as_str(), self.source_url.as_str());
        if r.is_err() && self.state == MonitorState::Polling {
            self.state = MonitorState::Failed;
        }
        r
    }

    /// Settles one scan from the decoded reply of the task-list request
    /// and says what to do next.
    ///
    /// While polling: figures found are shown, and end the polling once
    /// the download is complete; a task without detail and a failed scan
    /// each call for another scan after one interval; a list without the
    /// task, or an empty address or category, ends the monitoring. A
    /// monitor that is not polling stays as it is.
    pub fn on_scan(&mut self, client: &CloudreveClient, outcome: Result<Json, RequestError>) -> (r:
        MonitorStep)
        ensures
            r@ == step_of(old(self)@, outcome_view(outcome)),
            final(self)@ == (MonitorView {
                state: state_after(old(self)@.state, r@),
                ..old(self)@
            }),
    {
        if self.state != MonitorState::Polling {
            return MonitorStep::Stopped;
        }
        let found = client.search_remote_list_by_url(
            self.category.as_str(),
            self.source_url.as_str(),
            outcome,
        );
        match found {
            Ok(Some(summary)) => {
                if summary.complete {
                    self.state = MonitorState::Completed;
                    MonitorStep::Completed(summary)
                } else {
                    MonitorStep::Progress(summary)
                }
            },
            Ok(None) => MonitorStep::Pending,
            Err(MonitorError::ScanFailed(e)) => MonitorStep::Retry(MonitorError::ScanFailed(e)),
            Err(MonitorError::TaskNotFound) => {
                self.state = MonitorState::AbandonedNotFound;
                MonitorStep::Failed(MonitorError::TaskNotFound)
            },
            Err(e) => {
                self.state = MonitorState::Failed;
                MonitorStep::Failed(e)
            },
        }
    }
}

} // verus!
