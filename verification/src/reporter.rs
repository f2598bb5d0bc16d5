//! The execution reporter: the lines shown to the user while a run goes on
//! and when it has ended.

use vstd::prelude::*;
use vstd::string::StringExecFns;
use crate::executor::{OutcomeView, StepOutcome};
use crate::source::{
    finish_request, FinishOutcome, FinishView, RemoteError, RemoteErrorView, Request,
    RequestView, SourceView, StepSource,
};
use crate::summary::{status_word, FinalStatus, RunSummary, SummaryView};
use crate::text::{decimal, decimal_nat, int_text, join, joined, nat_text};
use crate::types::{StepView, TestStep};

verus! {

/// A line for the user: on standard output, or on standard error.
#[derive(Debug, Clone, PartialEq, Eq)]
pub enum Line {
    Stdout(String),
    Stderr(String),
}

/// A line as plain values.
pub enum LineView {
    Stdout(Seq<char>),
    Stderr(Seq<char>),
}

impl View for Line {
    type V = LineView;

    open spec fn view(&self) -> LineView {
        match self {
            Line::Stdout(text) => LineView::Stdout(text@),
            Line::Stderr(text) => LineView::Stderr(text@),
        }
    }
}

impl DeepView for Line {
    type V = LineView;

    open spec fn deep_view(&self) -> LineView {
        self.view()
    }
}

/// Said before the steps of a test are asked for.
pub open spec fn fetching_line(test_id: Seq<char>) -> LineView {
    LineView::Stdout("Fetching test steps for test: "@ + test_id)
}

/// Said of a remote error met while `doing` something: the status, and the
/// body as it came where there is one.
pub open spec fn remote_error_lines(doing: Seq<char>, e: RemoteErrorView) -> Seq<LineView> {
    let first = LineView::Stderr("Error "@ + doing + ": "@ + decimal_nat(e.status as nat));
    match e.body {
        Some(body) => seq![first, LineView::Stderr(body)],
        None => seq![first],
    }
}

/// Said when the service could not be reached while `doing` something.
pub open spec fn unreachable_line(doing: Seq<char>, message: Seq<char>) -> LineView {
    LineView::Stderr("Error "@ + doing + ": "@ + message)
}

/// Said before the first step, of the number of steps.
pub open spec fn executing_line(count: nat) -> LineView {
    LineView::Stdout("Executing "@ + decimal_nat(count) + " steps..."@)
}

/// Said where steps share an `order`.
pub open spec fn ties_line() -> LineView {
    LineView::Stderr("Warning: steps share an order; they run as received"@)
}

/// Said before a step is launched: its order, its command, its arguments.
pub open spec fn step_line(step: StepView) -> LineView {
    LineView::Stdout(
        "\n▶ Step "@ + decimal(step.order) + ": "@ + step.command + " "@ + joined(step.args, " "@),
    )
}

/// Said after a step's process has ended.
pub open spec fn outcome_line(step: StepView, outcome: OutcomeView) -> LineView {
    if outcome.launched && outcome.exit_success {
        LineView::Stdout("✓ Step "@ + decimal(step.order) + " succeeded"@)
    } else {
        LineView::Stderr(
            "✗ Step "@ + decimal(step.order) + " failed: "@ + match outcome.diagnostic {
                Some(text) => text,
                None => Seq::empty(),
            },
        )
    }
}

/// The last line of a run: how it ended as a whole.
pub open spec fn final_line(s: SummaryView) -> LineView {
    match s.final_status {
        FinalStatus::NoSteps => LineView::Stdout("No steps found for test "@ + s.test_id),
        FinalStatus::Passed => LineView::Stdout(
            "\n✓ Test "@ + s.test_id + " passed: "@ + decimal_nat(s.attempted) + " attempted, "@
                + decimal_nat(s.failed) + " failed"@,
        ),
        FinalStatus::Failed => match s.error_detail {
            Some(detail) => LineView::Stderr("\n✗ Test "@ + s.test_id + " failed: "@ + detail),
            None => LineView::Stderr(
                "\n✗ Test "@ + s.test_id + " failed: "@ + decimal_nat(s.attempted)
                    + " attempted, "@ + decimal_nat(s.failed) + " failed"@,
            ),
        },
    }
}

/// The report that goes to the step source when a run has ended: one is
/// sent only where the caller asked for it and the run did not end for want
/// of steps; it carries the word for the final status and the error detail.
pub open spec fn report_request(source: SourceView, s: SummaryView, opted_in: bool) -> Option<
    RequestView,
> {
    if opted_in && s.final_status != FinalStatus::NoSteps {
        Some(finish_request(source, s.test_id, status_word(s.final_status), s.error_detail))
    } else {
        None
    }
}

/// Said when the report of a run's end has been answered.
pub open spec fn reported_lines(status: FinalStatus, outcome: FinishView) -> Seq<LineView> {
    match outcome {
        FinishView::Accepted => seq![
            LineView::Stdout("✓ Test finished with status: "@ + status_word(status)),
        ],
        FinishView::Remote(e) => remote_error_lines("finishing test"@, e),
        FinishView::Unreachable(message) => seq![unreachable_line("finishing test"@, message)],
    }
}

impl Line {
    /// The line said before the steps of a test are asked for.
    pub fn fetching(test_id: &str) -> (r: Line)
        ensures
            r@ == fetching_line(test_id@),
    {
        let mut text = String::from_str("Fetching test steps for test: ");
        text.append(test_id);
        Line::Stdout(text)
    }

    /// The line said when the service could not be reached.
    pub fn unreachable(doing: &str, message: &str) -> (r: Line)
        ensures
            r@ == unreachable_line(doing@, message@),
    {
        let mut text = String::from_str("Error ");
        text.append(doing);
        text.append(": ");
        text.append(message);
        Line::Stderr(text)
    }

    /// The line said before the first step.
    pub fn executing(count: usize) -> (r: Line)
        ensures
            r@ == executing_line(count as nat),
    {
        let mut text = String::from_str("Executing ");
        let number = nat_text(count as u64);
        text.append(number.as_str());
        text.append(" steps...");
        Line::Stdout(text)
    }

    /// The line said where steps share an `order`.
    pub fn ties() -> (r: Line)
        ensures
            r@ == ties_line(),
    {
        Line::Stderr(String::from_str("Warning: steps share an order; they run as received"))
    }

    /// The line said before a step is launched.
    pub fn step(step: &TestStep) -> (r: Line)
        ensures
            r@ == step_line(step@),
    {
        let mut text = String::from_str("\n▶ Step ");
        let number = int_text(step.order as i64);
        text.append(number.as_str());
        text.append(": ");
        text.append(step.command.as_str());
        text.append(" ");
        let args = join(&step.args, " ");
        text.append(args.as_str());
        Line::Stdout(text)
    }

    /// The line said after a step's process has ended.
    pub fn outcome(step: &TestStep, outcome: &StepOutcome) -> (r: Line)
        ensures
            r@ == outcome_line(step@, outcome@),
    {
        let number = int_text(step.order as i64);
        if outcome.launched && outcome.exit_success {
            let mut text = String::from_str("✓ Step ");
            text.append(number.as_str());
            text.append(" succeeded");
            Line::Stdout(text)
        } else {
            let mut text = String::from_str("✗ Step ");
            text.append(number.as_str());
            text.append(" failed: ");
            match &outcome.diagnostic {
                Some(diagnostic) => {
                    text.append(diagnostic.as_str());
                },
                None => {
                },
            }
            Line::Stderr(text)
        }
    }

    /// The last line of a run.
    pub fn verdict(summary: &RunSummary) -> (r: Line)
        ensures
            r@ == final_line(summary@),
    {
        match summary.final_status {
            FinalStatus::NoSteps => {
                let mut text = String::from_str("No steps found for test ");
                text.append(summary.test_id.as_str());
                Line::Stdout(text)
            },
            FinalStatus::Passed => {
                let mut text = String::from_str("\n✓ Test ");
                text.append(summary.test_id.as_str());
                text.append(" passed: ");
                append_counts(&mut text, summary.attempted, summary.failed);
                Line::Stdout(text)
            },
            FinalStatus::Failed => {
                let mut text = String::from_str("\n✗ Test ");
                text.append(summary.test_id.as_str());
                text.append(" failed: ");
                match &summary.error_detail {
                    Some(detail) => {
                        text.append(detail.as_str());
                    },
                    None => {
                        append_counts(&mut text, summary.attempted, summary.failed);
                    },
                }
                Line::Stderr(text)
            },
        }
    }
}

fn append_counts(text: &mut String, attempted: usize, failed: usize)
    ensures
        final(text)@ == old(text)@ + decimal_nat(attempted as nat) + " attempted, "@ + decimal_nat(
            failed as nat,
        ) + " failed"@,
{
    let a = nat_text(attempted as u64);
    let f = nat_text(failed as u64);
    text.append(a.as_str());
    text.append(" attempted, ");
    text.append(f.as_str());
    text.append(" failed");
}

/// Reports a summary: the final line for the user, and the report for the
/// step source where one is to be sent.
pub fn report(source: &StepSource, summary: &RunSummary, opted_in: bool) -> (r: (
    Line,
    Option<Request>,
))
    ensures
        r.0@ == final_line(summary@),
        r.1.deep_view() == report_request(source@, summary@, opted_in),
{
    let line = Line::verdict(summary);
    if opted_in && summary.final_status != FinalStatus::NoSteps {
        let request = source.report_finish(
            summary.test_id.as_str(),
            summary.final_status.word(),
            &summary.error_detail,
        );
        (line, Some(request))
    } else {
        (line, None)
    }
}

/// The lines said of a remote error met while `doing` something.
pub fn remote_error_report(doing: &str, e: &RemoteError) -> (r: Vec<Line>)
    ensures
        r.deep_view() == remote_error_lines(doing@, e@),
{
    let mut text = String::from_str("Error ");
    text.append(doing);
    text.append(": ");
    let code = nat_text(e.status as u64);
    text.append(code.as_str());
    let mut lines: Vec<Line> = Vec::new();
    lines.push(Line::Stderr(text));
    match &e.body {
        Some(body) => {
            lines.push(Line::Stderr(body.clone()));
        },
        None => {},
    }
    lines
}

/// The lines said when the report of a run's end has been answered.
pub fn finish_report(status: FinalStatus, outcome: &FinishOutcome) -> (r: Vec<Line>)
    ensures
        r.deep_view() == reported_lines(status, outcome@),
{
    match outcome {
        FinishOutcome::Accepted => {
            let mut text = String::from_str("✓ Test finished with status: ");
            text.append(status.word());
            let mut lines: Vec<Line> = Vec::new();
            lines.push(Line::Stdout(text));
            lines
        },
        FinishOutcome::Remote(e) => remote_error_report("finishing test", e),
        FinishOutcome::Unreachable(message) => {
            let mut lines: Vec<Line> = Vec::new();
            lines.push(Line::unreachable("finishing test", message.as_str()));
            lines
        },
    }
}

} // verus!
