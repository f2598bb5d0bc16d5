//! The test run orchestrator.
//!
//! A run is a state machine. It starts by asking for the steps of the test;
//! it then launches the steps one at a time, by ascending `order`, and goes
//! on to the next step whether or not a step failed; at the end it gives the
//! summary, and before that, where the caller asked for it, reports the end
//! of the run to the step source. The machine decides; a driver carries out
//! each [`Action`] and hands back what happened as an [`Event`].

use vstd::prelude::*;
use crate::executor::{
    classify, failing, invocation, invocation_of, outcome_of, ExitView, Invocation,
    InvocationView, ProcessExit,
};
use crate::plan::{arrange, arranged, has_ties, ordered, shares_order};
use crate::reporter::{
    executing_line, fetching_line, final_line, finish_report, outcome_line, remote_error_lines,
    remote_error_report, report_request, reported_lines, step_line, ties_line,
    unreachable_line, Line, LineView,
};
use crate::source::{
    fetch_steps_request, remote_text, FetchOutcome, FetchView, FinishOutcome, FinishView,
    Request, RequestView, SourceView, StepSource,
};
use crate::summary::{FinalStatus, RunSummary, SummaryView};
use crate::types::{StepView, TestStep};

verus! {

/// Where a run stands.
#[derive(Debug, Clone, Copy, PartialEq, Eq, Structural)]
pub enum Phase {
    /// The steps have been asked for.
    Fetching,
    /// A step has been launched and has not ended yet.
    Executing,
    /// The end of the run has been reported and the answer is awaited.
    Reporting,
    /// The run is over.
    Finished,
}

/// What happened outside, for the run to go on from.
#[derive(Debug, PartialEq, Eq)]
pub enum Event {
    /// The request for the steps has been answered.
    Fetched(FetchOutcome),
    /// The process of the step launched last has ended.
    Exited(ProcessExit),
    /// The report of the run's end has been answered.
    Reported(FinishOutcome),
}

/// An event as plain values.
pub enum EventView {
    Fetched(FetchView),
    Exited(ExitView),
    Reported(FinishView),
}

impl View for Event {
    type V = EventView;

    open spec fn view(&self) -> EventView {
        match self {
            Event::Fetched(outcome) => EventView::Fetched(outcome@),
            Event::Exited(exit) => EventView::Exited(exit@),
            Event::Reported(outcome) => EventView::Reported(outcome@),
        }
    }
}

/// What the driver is to do next. It shows the notices first.
#[derive(Debug, PartialEq, Eq)]
pub enum Action {
    /// Send the request for the steps, and hand back [`Event::Fetched`].
    Fetch { notices: Vec<Line>, request: Request },
    /// Launch the process, wait for its end, and hand back [`Event::Exited`].
    Launch { notices: Vec<Line>, invocation: Invocation },
    /// Send the report of the run's end, and hand back [`Event::Reported`].
    Report { notices: Vec<Line>, request: Request },
    /// Nothing more: the run is over, and this is what it came to.
    Done { notices: Vec<Line>, summary: RunSummary },
    /// The event was not the one the run was waiting for; nothing changed.
    Rejected,
}

/// An action as plain values.
pub enum ActionView {
    Fetch { notices: Seq<LineView>, request: RequestView },
    Launch { notices: Seq<LineView>, invocation: InvocationView },
    Report { notices: Seq<LineView>, request: RequestView },
    Done { notices: Seq<LineView>, summary: SummaryView },
    Rejected,
}

impl View for Action {
    type V = ActionView;

    open spec fn view(&self) -> ActionView {
        match self {
            Action::Fetch { notices, request } => ActionView::Fetch {
                notices: notices.deep_view(),
                request: request@,
            },
            Action::Launch { notices, invocation } => ActionView::Launch {
                notices: notices.deep_view(),
                invocation: invocation@,
            },
            Action::Report { notices, request } => ActionView::Report {
                notices: notices.deep_view(),
                request: request@,
            },
            Action::Done { notices, summary } => ActionView::Done {
                notices: notices.deep_view(),
                summary: summary@,
            },
            Action::Rejected => ActionView::Rejected,
        }
    }
}

/// A run of one test.
#[derive(Debug)]
pub struct Run {
    source: StepSource,
    test_id: String,
    report: bool,
    phase: Phase,
    plan: Vec<TestStep>,
    cursor: usize,
    failed: usize,
    error_detail: Option<String>,
}

/// A run as plain values.
pub struct RunView {
    /// The step source that is asked and reported to.
    pub source: SourceView,
    /// The test that is run.
    pub test_id: Seq<char>,
    /// Whether the end of the run is reported to the step source.
    pub report: bool,
    /// Where the run stands.
    pub phase: Phase,
    /// The steps in the sequence in which they are taken.
    pub plan: Seq<StepView>,
    /// How many steps have ended so far; while a step is executing, its place
    /// in the plan.
    pub cursor: nat,
    /// How many of the steps that have ended have failed.
    pub failed: nat,
    /// Why the steps could not be fetched, if they could not.
    pub error_detail: Option<Seq<char>>,
}

/// The state in which a run starts.
pub open spec fn initial(source: SourceView, test_id: Seq<char>, report: bool) -> RunView {
    RunView {
        source,
        test_id,
        report,
        phase: Phase::Fetching,
        plan: Seq::empty(),
        cursor: 0,
        failed: 0,
        error_detail: None,
    }
}

/// The action with which a run starts.
pub open spec fn first_action(source: SourceView, test_id: Seq<char>) -> ActionView {
    ActionView::Fetch {
        notices: seq![fetching_line(test_id)],
        request: fetch_steps_request(source, test_id),
    }
}

/// What holds of a run at all times.
pub open spec fn valid(s: RunView) -> bool {
    &&& ordered(s.plan)
    &&& s.failed <= s.cursor <= s.plan.len()
    &&& s.phase == Phase::Fetching ==> s.plan.len() == 0
    &&& s.phase == Phase::Executing ==> s.cursor < s.plan.len()
    &&& s.phase == Phase::Reporting || s.phase == Phase::Finished ==> s.cursor == s.plan.len()
}

/// What a run has come to, once no step is left.
pub open spec fn summary_of(s: RunView) -> SummaryView {
    SummaryView {
        test_id: s.test_id,
        attempted: s.cursor,
        failed: s.failed,
        final_status: if s.error_detail is Some || s.failed > 0 {
            FinalStatus::Failed
        } else if s.plan.len() == 0 {
            FinalStatus::NoSteps
        } else {
            FinalStatus::Passed
        },
        error_detail: s.error_detail,
    }
}

/// The end of a run: after `notices` the final line is said; then the end is
/// reported, where the reporter has a report to send, and else the run is
/// over.
pub open spec fn conclude(s: RunView, notices: Seq<LineView>) -> (RunView, ActionView) {
    let summary = summary_of(s);
    let said = notices.push(final_line(summary));
    match report_request(s.source, summary, s.report) {
        Some(request) => (
            RunView { phase: Phase::Reporting, ..s },
            ActionView::Report { notices: said, request },
        ),
        None => (RunView { phase: Phase::Finished, ..s }, ActionView::Done { notices: said, summary }),
    }
}

/// The launch of the step at the cursor, announced after `notices`.
pub open spec fn launch(s: RunView, notices: Seq<LineView>) -> ActionView {
    let step = s.plan[s.cursor as int];
    ActionView::Launch { notices: notices.push(step_line(step)), invocation: invocation_of(step) }
}

/// What is said when steps have come: their number, and a warning where two
/// of them share an `order`.
pub open spec fn arrival_lines(steps: Seq<StepView>) -> Seq<LineView> {
    if has_ties(steps) {
        seq![executing_line(steps.len()), ties_line()]
    } else {
        seq![executing_line(steps.len())]
    }
}

/// How a run that waits for the steps goes on when the answer has come.
pub open spec fn on_fetched(s: RunView, outcome: FetchView) -> (RunView, ActionView) {
    match outcome {
        FetchView::Steps(steps) => if steps.len() == 0 {
            conclude(s, Seq::empty())
        } else {
            let next = RunView { phase: Phase::Executing, plan: arranged(steps), cursor: 0, ..s };
            (next, launch(next, arrival_lines(steps)))
        },
        FetchView::Remote(e) => conclude(
            RunView { error_detail: Some(remote_text(e)), ..s },
            remote_error_lines("fetching test steps"@, e),
        ),
        FetchView::Unreachable(message) => conclude(
            RunView { error_detail: Some(message), ..s },
            seq![unreachable_line("fetching test steps"@, message)],
        ),
    }
}

/// How a run goes on when the process of the step at the cursor has ended:
/// the step counts as attempted, and as failed unless it succeeded; the next
/// step is launched if there is one, whatever became of this one.
pub open spec fn on_exited(s: RunView, exit: ExitView) -> (RunView, ActionView) {
    let step = s.plan[s.cursor as int];
    let outcome = outcome_of(step.id, exit);
    let said = seq![outcome_line(step, outcome)];
    let next = RunView {
        cursor: s.cursor + 1,
        failed: if failing(outcome) {
            s.failed + 1
        } else {
            s.failed
        },
        ..s
    };
    if next.cursor < s.plan.len() {
        (next, launch(next, said))
    } else {
        conclude(next, said)
    }
}

/// How a run ends when its report has been answered: whatever the answer,
/// the summary stays as it was.
pub open spec fn on_reported(s: RunView, outcome: FinishView) -> (RunView, ActionView) {
    let summary = summary_of(s);
    (
        RunView { phase: Phase::Finished, ..s },
        ActionView::Done { notices: reported_lines(summary.final_status, outcome), summary },
    )
}

/// The next state of a run and what is to be done, for each state and event.
/// An event that the run is not waiting for changes nothing.
pub open spec fn transition(s: RunView, event: EventView) -> (RunView, ActionView) {
    match event {
        EventView::Fetched(outcome) if s.phase == Phase::Fetching => on_fetched(s, outcome),
        EventView::Exited(exit) if s.phase == Phase::Executing => on_exited(s, exit),
        EventView::Reported(outcome) if s.phase == Phase::Reporting => on_reported(s, outcome),
        _ => (s, ActionView::Rejected),
    }
}

fn copy_text(text: &Option<String>) -> (r: Option<String>)
    ensures
        r.deep_view() == text.deep_view(),
{
    match text {
        Some(t) => Some(t.clone()),
        None => None,
    }
}

impl View for Run {
    type V = RunView;

    closed spec fn view(&self) -> RunView {
        RunView {
            source: self.source@,
            test_id: self.test_id@,
            report: self.report,
            phase: self.phase,
            plan: self.plan.deep_view(),
            cursor: self.cursor as nat,
            failed: self.failed as nat,
            error_detail: self.error_detail.deep_view(),
        }
    }
}

impl Run {
    #[verifier::type_invariant]
    spec fn well_formed(&self) -> bool {
        valid(self@)
    }

    /// Starts a run of the test `test_id`. With `report` set, the end of the
    /// run is reported to the step source.
    pub fn begin(source: StepSource, test_id: String, report: bool) -> (r: (Run, Action))
        ensures
            r.0@ == initial(source@, test_id@, report),
            r.1@ == first_action(source@, test_id@),
    {
        let mut notices: Vec<Line> = Vec::new();
        notices.push(Line::fetching(test_id.as_str()));
        assert(notices.deep_view() =~= seq![fetching_line(test_id@)]);
        let request = source.fetch_steps(test_id.as_str());
        let plan: Vec<TestStep> = Vec::new();
        assert(plan.deep_view() =~= Seq::empty());
        let run = Run {
            source,
            test_id,
            report,
            phase: Phase::Fetching,
            plan,
            cursor: 0,
            failed: 0,
            error_detail: None,
        };
        (run, Action::Fetch { notices, request })
    }

    /// Where the run stands.
    pub fn phase(&self) -> (r: Phase)
        ensures
            r == self@.phase,
    {
        self.phase
    }

    /// What the run has come to so far. Once the run is over, this is its
    /// summary.
    pub fn summary(&self) -> (r: RunSummary)
        ensures
            r@ == summary_of(self@),
    {
        summarize(
            &self.test_id,
            self.plan.len(),
            self.cursor,
            self.failed,
            &self.error_detail,
        )
    }

    /// Takes in what happened and says what is to be done next.
    pub fn advance(self, event: Event) -> (r: (Run, Action))
        ensures
            (r.0@, r.1@) == transition(self@, event@),
            valid(self@),
            valid(r.0@),
    {
        proof {
            use_type_invariant(&self);
        }
        match event {
            Event::Fetched(outcome) => {
                if self.phase == Phase::Fetching {
                    self.fetched(outcome)
                } else {
                    (self, Action::Rejected)
                }
            },
            Event::Exited(exit) => {
                if self.phase == Phase::Executing {
                    self.exited(exit)
                } else {
                    (self, Action::Rejected)
                }
            },
            Event::Reported(outcome) => {
                if self.phase == Phase::Reporting {
                    self.reported(outcome)
                } else {
                    (self, Action::Rejected)
                }
            },
        }
    }

    fn fetched(self, outcome: FetchOutcome) -> (r: (Run, Action))
        requires
            self@.phase == Phase::Fetching,
        ensures
            (r.0@, r.1@) == on_fetched(self@, outcome@),
            valid(r.0@),
    {
        proof {
            use_type_invariant(&self);
        }
        match outcome {
            FetchOutcome::Steps(steps) => {
                if steps.len() == 0 {
                    let notices: Vec<Line> = Vec::new();
                    assert(notices.deep_view() =~= Seq::empty());
                    finish(
                        self.source,
                        self.test_id,
                        self.report,
                        self.plan,
                        self.failed,
                        self.error_detail,
                        notices,
                    )
                } else {
                    let ghost given = steps.deep_view();
                    let mut notices: Vec<Line> = Vec::new();
                    notices.push(Line::executing(steps.len()));
                    if shares_order(&steps) {
                        notices.push(Line::ties());
                    }
                    let plan = arrange(steps);
                    notices.push(Line::step(&plan[0]));
                    let launched = invocation(&plan[0]);
                    let run = Run {
                        source: self.source,
                        test_id: self.test_id,
                        report: self.report,
                        phase: Phase::Executing,
                        plan,
                        cursor: 0,
                        failed: self.failed,
                        error_detail: self.error_detail,
                    };
                    proof {
                        assert(notices.deep_view() =~= arrival_lines(given).push(
                            step_line(run@.plan[0]),
                        ));
                    }
                    (run, Action::Launch { notices, invocation: launched })
                }
            },
            FetchOutcome::Remote(e) => {
                let notices = remote_error_report("fetching test steps", &e);
                let detail = e.text();
                finish(
                    self.source,
                    self.test_id,
                    self.report,
                    self.plan,
                    self.failed,
                    Some(detail),
                    notices,
                )
            },
            FetchOutcome::Unreachable(message) => {
                let mut notices: Vec<Line> = Vec::new();
                notices.push(Line::unreachable("fetching test steps", message.as_str()));
                assert(notices.deep_view() =~= seq![
                    unreachable_line("fetching test steps"@, message@),
                ]);
                finish(
                    self.source,
                    self.test_id,
                    self.report,
                    self.plan,
                    self.failed,
                    Some(message),
                    notices,
                )
            },
        }
    }

    fn exited(self, exit: ProcessExit) -> (r: (Run, Action))
        requires
            self@.phase == Phase::Executing,
        ensures
            (r.0@, r.1@) == on_exited(self@, exit@),
            valid(r.0@),
    {
        proof {
            use_type_invariant(&self);
        }
        let ghost before = self@;
        let steps = self.plan.len();
        let outcome = classify(&self.plan[self.cursor], &exit);
        let mut notices: Vec<Line> = Vec::new();
        notices.push(Line::outcome(&self.plan[self.cursor], &outcome));
        proof {
            assert(notices.deep_view() =~= seq![
                outcome_line(
                    before.plan[before.cursor as int],
                    outcome_of(before.plan[before.cursor as int].id, exit@),
                ),
            ]);
        }
        let failed = if outcome.failed() {
            self.failed + 1
        } else {
            self.failed
        };
        let cursor = self.cursor + 1;
        if cursor < steps {
            let ghost said = notices.deep_view();
            notices.push(Line::step(&self.plan[cursor]));
            let launched = invocation(&self.plan[cursor]);
            let run = Run {
                source: self.source,
                test_id: self.test_id,
                report: self.report,
                phase: Phase::Executing,
                plan: self.plan,
                cursor,
                failed,
                error_detail: self.error_detail,
            };
            proof {
                assert(notices.deep_view() =~= said.push(step_line(run@.plan[cursor as int])));
            }
            (run, Action::Launch { notices, invocation: launched })
        } else {
            finish(
                self.source,
                self.test_id,
                self.report,
                self.plan,
                failed,
                self.error_detail,
                notices,
            )
        }
    }

    fn reported(self, outcome: FinishOutcome) -> (r: (Run, Action))
        requires
            self@.phase == Phase::Reporting,
        ensures
            (r.0@, r.1@) == on_reported(self@, outcome@),
            valid(r.0@),
    {
        proof {
            use_type_invariant(&self);
        }
        let summary = self.summary();
        let notices = finish_report(summary.final_status, &outcome);
        let run = Run {
            source: self.source,
            test_id: self.test_id,
            report: self.report,
            phase: Phase::Finished,
            plan: self.plan,
            cursor: self.cursor,
            failed: self.failed,
            error_detail: self.error_detail,
        };
        (run, Action::Done { notices, summary })
    }
}

fn summarize(
    test_id: &String,
    steps: usize,
    attempted: usize,
    failed: usize,
    error_detail: &Option<String>,
) -> (r: RunSummary)
    ensures
        r@ == (SummaryView {
            test_id: test_id@,
            attempted: attempted as nat,
            failed: failed as nat,
            final_status: if error_detail is Some || failed > 0 {
                FinalStatus::Failed
            } else if steps == 0 {
                FinalStatus::NoSteps
            } else {
                FinalStatus::Passed
            },
            error_detail: error_detail.deep_view(),
        }),
{
    let final_status = if error_detail.is_some() || failed > 0 {
        FinalStatus::Failed
    } else if steps == 0 {
        FinalStatus::NoSteps
    } else {
        FinalStatus::Passed
    };
    RunSummary {
        test_id: test_id.clone(),
        attempted,
        failed,
        final_status,
        error_detail: copy_text(error_detail),
    }
}

fn finish(
    source: StepSource,
    test_id: String,
    report: bool,
    plan: Vec<TestStep>,
    failed: usize,
    error_detail: Option<String>,
    notices: Vec<Line>,
) -> (r: (Run, Action))
    requires
        ordered(plan.deep_view()),
        failed <= plan.len(),
    ensures
        (r.0@, r.1@) == conclude(
            RunView {
                source: source@,
                test_id: test_id@,
                report,
                phase: r.0@.phase,
                plan: plan.deep_view(),
                cursor: plan.len() as nat,
                failed: failed as nat,
                error_detail: error_detail.deep_view(),
            },
            notices.deep_view(),
        ),
        valid(r.0@),
{
    let summary = summarize(&test_id, plan.len(), plan.len(), failed, &error_detail);
    let mut notices = notices;
    let ghost said = notices.deep_view();
    let (line, request) = crate::reporter::report(&source, &summary, report);
    notices.push(line);
    assert(notices.deep_view() =~= said.push(final_line(summary@)));
    let cursor = plan.len();
    match request {
        Some(request) => {
            let run = Run {
                source,
                test_id,
                report,
                phase: Phase::Reporting,
                plan,
                cursor,
                failed,
                error_detail,
            };
            (run, Action::Report { notices, request })
        },
        None => {
            let run = Run {
                source,
                test_id,
                report,
                phase: Phase::Finished,
                plan,
                cursor,
                failed,
                error_detail,
            };
            (run, Action::Done { notices, summary })
        },
    }
}

} // verus!
