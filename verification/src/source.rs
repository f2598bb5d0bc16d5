//! The step source: the remote service that keeps the steps of each test and
//! the record of its runs. This module says which request each operation
//! makes and how an answer's status is read; sending is the driver's part.

use vstd::prelude::*;
use vstd::string::StringExecFns;
use vstd::utf8::encode_utf8;
use crate::encode::{percent_encode, percent_encoded};
use crate::json::{optional_text, text_list, Json, JsonView, Member};
use crate::text::{decimal_nat, nat_text};
use crate::types::{StepView, TestStep};

verus! {

/// The method of a request.
#[derive(Debug, Clone, Copy, PartialEq, Eq, Structural)]
pub enum Method {
    Get,
    Post,
    Delete,
}

/// A request to the service: what to send where.
#[derive(Debug, PartialEq, Eq)]
pub struct Request {
    pub method: Method,
    pub url: String,
    pub body: Option<Json>,
}

/// A request as plain values.
pub struct RequestView {
    pub method: Method,
    pub url: Seq<char>,
    pub body: Option<JsonView>,
}

impl View for Request {
    type V = RequestView;

    open spec fn view(&self) -> RequestView {
        RequestView { method: self.method, url: self.url@, body: self.body.deep_view() }
    }
}

impl DeepView for Request {
    type V = RequestView;

    open spec fn deep_view(&self) -> RequestView {
        self.view()
    }
}

/// An answer of the service that is no success: its status code and, where
/// one came, the text of its body.
#[derive(Debug, Clone, PartialEq, Eq)]
pub struct RemoteError {
    pub status: u16,
    pub body: Option<String>,
}

/// A remote error as plain values.
pub struct RemoteErrorView {
    pub status: u16,
    pub body: Option<Seq<char>>,
}

impl View for RemoteError {
    type V = RemoteErrorView;

    open spec fn view(&self) -> RemoteErrorView {
        RemoteErrorView { status: self.status, body: self.body.deep_view() }
    }
}

/// The text that stands for a remote error: the body as it came, or the
/// status where the body is missing or empty.
pub open spec fn remote_text(e: RemoteErrorView) -> Seq<char> {
    match e.body {
        Some(body) if body.len() > 0 => body,
        _ => "HTTP "@ + decimal_nat(e.status as nat),
    }
}

/// Whether a status code reports success: the codes from 200 to 299 do.
pub fn is_success(status: u16) -> (r: bool)
    ensures
        r == (200 <= status < 300),
{
    200 <= status && status < 300
}

impl RemoteError {
    /// The text that stands for the error.
    pub fn text(&self) -> (r: String)
        ensures
            r@ == remote_text(self@),
    {
        match &self.body {
            Some(body) => {
                if !body.as_str().is_empty() {
                    return body.clone();
                }
            },
            None => {},
        }
        let mut r = String::from_str("HTTP ");
        let code = nat_text(self.status as u64);
        r.append(code.as_str());
        r
    }
}

/// What came of asking for the steps of a test.
#[derive(Debug, Clone, PartialEq, Eq)]
pub enum FetchOutcome {
    /// The service answered with the steps, in the sequence given.
    Steps(Vec<TestStep>),
    /// The service answered, but not with success.
    Remote(RemoteError),
    /// No usable answer came: the service was not reached, or what it sent
    /// could not be read.
    Unreachable(String),
}

/// A fetch outcome as plain values.
pub enum FetchView {
    Steps(Seq<StepView>),
    Remote(RemoteErrorView),
    Unreachable(Seq<char>),
}

impl View for FetchOutcome {
    type V = FetchView;

    open spec fn view(&self) -> FetchView {
        match self {
            FetchOutcome::Steps(steps) => FetchView::Steps(steps.deep_view()),
            FetchOutcome::Remote(e) => FetchView::Remote(e@),
            FetchOutcome::Unreachable(message) => FetchView::Unreachable(message@),
        }
    }
}

/// What came of reporting the end of a run.
#[derive(Debug, Clone, PartialEq, Eq)]
pub enum FinishOutcome {
    /// The service took the report.
    Accepted,
    /// The service answered, but not with success.
    Remote(RemoteError),
    /// The service was not reached.
    Unreachable(String),
}

/// A finish outcome as plain values.
pub enum FinishView {
    Accepted,
    Remote(RemoteErrorView),
    Unreachable(Seq<char>),
}

impl View for FinishOutcome {
    type V = FinishView;

    open spec fn view(&self) -> FinishView {
        match self {
            FinishOutcome::Accepted => FinishView::Accepted,
            FinishOutcome::Remote(e) => FinishView::Remote(e@),
            FinishOutcome::Unreachable(message) => FinishView::Unreachable(message@),
        }
    }
}

/// Where the service is and which repository is meant.
#[derive(Debug, Clone, PartialEq, Eq)]
pub struct StepSource {
    pub base_url: String,
    pub repo: String,
}

/// A step source as plain values.
pub struct SourceView {
    pub base_url: Seq<char>,
    pub repo: Seq<char>,
}

impl View for StepSource {
    type V = SourceView;

    open spec fn view(&self) -> SourceView {
        SourceView { base_url: self.base_url@, repo: self.repo@ }
    }
}

/// The address of what the service keeps under `leaf` for a test: the test's
/// identifier as it is, the repository's name percent-encoded.
pub open spec fn test_url(src: SourceView, test_id: Seq<char>, leaf: Seq<char>) -> Seq<char> {
    src.base_url + "/api/tests/"@ + test_id + "/"@ + leaf + "?repo="@ + percent_encoded(
        encode_utf8(src.repo),
    )
}

/// The request for the steps of a test.
pub open spec fn fetch_steps_request(src: SourceView, test_id: Seq<char>) -> RequestView {
    RequestView { method: Method::Get, url: test_url(src, test_id, "steps"@), body: None }
}

/// The request that adds a step to a test.
pub open spec fn add_step_request(
    src: SourceView,
    test_id: Seq<char>,
    command: Seq<char>,
    args: Seq<Seq<char>>,
) -> RequestView {
    RequestView {
        method: Method::Post,
        url: test_url(src, test_id, "steps"@),
        body: Some(
            JsonView::Object(
                seq![("command"@, JsonView::Text(command)), ("args"@, text_list(args))],
            ),
        ),
    }
}

/// The request that marks a test as started.
pub open spec fn start_run_request(src: SourceView, test_id: Seq<char>) -> RequestView {
    RequestView { method: Method::Post, url: test_url(src, test_id, "run"@), body: None }
}

/// The request that records how a run ended.
pub open spec fn finish_request(
    src: SourceView,
    test_id: Seq<char>,
    status: Seq<char>,
    error: Option<Seq<char>>,
) -> RequestView {
    RequestView {
        method: Method::Post,
        url: test_url(src, test_id, "finish"@),
        body: Some(
            JsonView::Object(
                seq![("status"@, JsonView::Text(status)), ("error"@, optional_text(error))],
            ),
        ),
    }
}

/// The request for the `last` most recent runs of a test.
pub open spec fn executions_request(src: SourceView, test_id: Seq<char>, last: nat) -> RequestView {
    RequestView {
        method: Method::Get,
        url: test_url(src, test_id, "executions"@) + "&last="@ + decimal_nat(last),
        body: None,
    }
}

impl StepSource {
    fn test_url(&self, test_id: &str, leaf: &str) -> (r: String)
        ensures
            r@ == test_url(self@, test_id@, leaf@),
    {
        let mut url = self.base_url.clone();
        url.append("/api/tests/");
        url.append(test_id);
        url.append("/");
        url.append(leaf);
        url.append("?repo=");
        let repo = percent_encode(self.repo.as_str());
        url.append(repo.as_str());
        url
    }

    /// The request for the steps of a test.
    pub fn fetch_steps(&self, test_id: &str) -> (r: Request)
        ensures
            r@ == fetch_steps_request(self@, test_id@),
    {
        Request { method: Method::Get, url: self.test_url(test_id, "steps"), body: None }
    }

    /// The request that adds a step with the given command and arguments to a
    /// test.
    pub fn add_step(&self, test_id: &str, command: &str, args: &Vec<String>) -> (r: Request)
        ensures
            r@ == add_step_request(self@, test_id@, command@, args.deep_view()),
    {
        let mut members: Vec<Member> = Vec::new();
        members.push(Member::new("command", Json::text(command)));
        members.push(Member::new("args", Json::texts(args)));
        let body = Json::object(members);
        assert(body@->Object_0 =~= seq![
            ("command"@, JsonView::Text(command@)),
            ("args"@, text_list(args.deep_view())),
        ]);
        Request { method: Method::Post, url: self.test_url(test_id, "steps"), body: Some(body) }
    }

    /// The request that marks a test as started.
    pub fn start_run(&self, test_id: &str) -> (r: Request)
        ensures
            r@ == start_run_request(self@, test_id@),
    {
        Request { method: Method::Post, url: self.test_url(test_id, "run"), body: None }
    }

    /// The request that records that a run of a test ended with `status`, and
    /// with which error if any.
    pub fn report_finish(&self, test_id: &str, status: &str, error: &Option<String>) -> (r:
        Request)
        ensures
            r@ == finish_request(self@, test_id@, status@, error.deep_view()),
    {
        let mut members: Vec<Member> = Vec::new();
        members.push(Member::new("status", Json::text(status)));
        members.push(Member::new("error", Json::optional(error)));
        let body = Json::object(members);
        assert(body@->Object_0 =~= seq![
            ("status"@, JsonView::Text(status@)),
            ("error"@, optional_text(error.deep_view())),
        ]);
        Request { method: Method::Post, url: self.test_url(test_id, "finish"), body: Some(body) }
    }

    /// The request for the `last` most recent runs of a test.
    pub fn list_executions(&self, test_id: &str, last: usize) -> (r: Request)
        ensures
            r@ == executions_request(self@, test_id@, last as nat),
    {
        let mut url = self.test_url(test_id, "executions");
        url.append("&last=");
        let count = nat_text(last as u64);
        url.append(count.as_str());
        Request { method: Method::Get, url, body: None }
    }
}

} // verus!
