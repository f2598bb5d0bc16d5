//! Whole runs: what the orchestrator does over any sequence of events, and
//! what holds of every run.

use vstd::prelude::*;
use crate::executor::{invocation_of, succeeded, ExitView, InvocationView};
use crate::orchestrator::{
    initial, summary_of, transition, valid, ActionView, EventView, Phase, RunView,
};
use crate::plan::{arranged, law_arranged_len, law_arranged_ordered};
use crate::reporter::final_line;
use crate::source::{
    finish_request, remote_text, FetchView, FinishView, RemoteErrorView, SourceView,
};
use crate::summary::{consistent, status_word, FinalStatus};
use crate::types::StepView;

verus! {

/// The state of a run that started in `s` after the events given, and the
/// actions it asked for, one for each event.
pub open spec fn drive(s: RunView, events: Seq<EventView>) -> (RunView, Seq<ActionView>)
    decreases events.len(),
{
    if events.len() == 0 {
        (s, Seq::empty())
    } else {
        let before = drive(s, events.drop_last());
        let step = transition(before.0, events.last());
        (step.0, before.1.push(step.1))
    }
}

/// The invocation that an action asks for, if it asks for one.
pub open spec fn launch_of(action: ActionView) -> Seq<InvocationView> {
    match action {
        ActionView::Launch { invocation, .. } => seq![invocation],
        _ => Seq::empty(),
    }
}

/// The invocations that the actions ask for, in sequence.
pub open spec fn launches(actions: Seq<ActionView>) -> Seq<InvocationView>
    decreases actions.len(),
{
    if actions.len() == 0 {
        Seq::empty()
    } else {
        launches(actions.drop_last()) + launch_of(actions.last())
    }
}

/// The invocations of the steps of a plan, in sequence.
pub open spec fn invocations(plan: Seq<StepView>) -> Seq<InvocationView> {
    Seq::new(plan.len(), |i: int| invocation_of(plan[i]))
}

/// How many steps of its plan a run has launched: those that have ended,
/// and the one that is executing.
pub open spec fn launched(s: RunView) -> int {
    if s.phase == Phase::Executing {
        s.cursor as int + 1
    } else {
        s.cursor as int
    }
}

/// How many of the exits are no success.
pub open spec fn failures(exits: Seq<ExitView>) -> nat {
    exits.filter(|x: ExitView| !succeeded(x)).len()
}

/// The events of a run in which the steps came and then the processes
/// ended as `exits` says, one after another.
pub open spec fn script(steps: Seq<StepView>, exits: Seq<ExitView>) -> Seq<EventView> {
    seq![EventView::Fetched(FetchView::Steps(steps))] + Seq::new(
        exits.len(),
        |i: int| EventView::Exited(exits[i]),
    )
}

/// One event: the run stays valid, keeps its test, source and choice of
/// reporting, never goes back to waiting for the steps, changes its plan
/// only when the steps come, and launches exactly the next step of the plan
/// or nothing.
pub proof fn lemma_transition(s: RunView, event: EventView)
    requires
        valid(s),
    ensures
        valid(transition(s, event).0),
        transition(s, event).0.source == s.source,
        transition(s, event).0.test_id == s.test_id,
        transition(s, event).0.report == s.report,
        s.phase != Phase::Fetching ==> transition(s, event).0.phase != Phase::Fetching
            && transition(s, event).0.plan == s.plan,
        s.phase == Phase::Finished ==> transition(s, event) == (s, ActionView::Rejected),
        invocations(transition(s, event).0.plan.take(launched(transition(s, event).0)))
            == invocations(s.plan.take(launched(s))) + launch_of(transition(s, event).1),
{
    match event {
        EventView::Fetched(FetchView::Steps(steps)) => {
            law_arranged_len(steps);
            law_arranged_ordered(steps);
        },
        _ => {},
    }
}

/// In every run, whatever events come: the run stays valid, and the
/// processes launched so far are the invocations of the leading steps of
/// its plan, one for each step and in the plan's sequence.
pub proof fn law_launches_follow_plan(
    source: SourceView,
    test_id: Seq<char>,
    report: bool,
    events: Seq<EventView>,
)
    ensures
        valid(drive(initial(source, test_id, report), events).0),
        drive(initial(source, test_id, report), events).0.source == source,
        drive(initial(source, test_id, report), events).0.test_id == test_id,
        drive(initial(source, test_id, report), events).0.report == report,
        drive(initial(source, test_id, report), events).1.len() == events.len(),
        0 <= launched(drive(initial(source, test_id, report), events).0) <= drive(
            initial(source, test_id, report),
            events,
        ).0.plan.len(),
        launches(drive(initial(source, test_id, report), events).1) == invocations(
            drive(initial(source, test_id, report), events).0.plan.take(
                launched(drive(initial(source, test_id, report), events).0),
            ),
        ),
    decreases events.len(),
{
    let start = initial(source, test_id, report);
    if events.len() > 0 {
        law_launches_follow_plan(source, test_id, report, events.drop_last());
        let before = drive(start, events.drop_last());
        lemma_transition(before.0, events.last());
        assert(drive(start, events).1.drop_last() =~= before.1);
    }
}

/// Steps are attempted by ascending `order`: the launches of a run are the
/// invocations of its plan's steps in sequence; of two launches the first
/// is of a step whose `order` is not larger; and a step whose `order` is
/// smaller than that of another launched step was launched before it.
pub proof fn law_launches_by_order(
    source: SourceView,
    test_id: Seq<char>,
    report: bool,
    events: Seq<EventView>,
    a: int,
    b: int,
)
    requires
        0 <= a < launches(drive(initial(source, test_id, report), events).1).len(),
        0 <= b < launches(drive(initial(source, test_id, report), events).1).len(),
    ensures
        a < drive(initial(source, test_id, report), events).0.plan.len(),
        b < drive(initial(source, test_id, report), events).0.plan.len(),
        launches(drive(initial(source, test_id, report), events).1)[a] == invocation_of(
            drive(initial(source, test_id, report), events).0.plan[a],
        ),
        launches(drive(initial(source, test_id, report), events).1)[b] == invocation_of(
            drive(initial(source, test_id, report), events).0.plan[b],
        ),
        a < b ==> drive(initial(source, test_id, report), events).0.plan[a].order <= drive(
            initial(source, test_id, report),
            events,
        ).0.plan[b].order,
        drive(initial(source, test_id, report), events).0.plan[a].order < drive(
            initial(source, test_id, report),
            events,
        ).0.plan[b].order ==> a < b,
{
    law_launches_follow_plan(source, test_id, report, events);
}

/// Once the steps have come, the plan of the run is those steps arranged by
/// `order`, whatever comes after.
pub proof fn law_plan_arranges_fetched(
    source: SourceView,
    test_id: Seq<char>,
    report: bool,
    steps: Seq<StepView>,
    later: Seq<EventView>,
)
    ensures
        drive(
            initial(source, test_id, report),
            seq![EventView::Fetched(FetchView::Steps(steps))] + later,
        ).0.plan == arranged(steps),
        drive(
            initial(source, test_id, report),
            seq![EventView::Fetched(FetchView::Steps(steps))] + later,
        ).0.phase != Phase::Fetching,
    decreases later.len(),
{
    let start = initial(source, test_id, report);
    let first = seq![EventView::Fetched(FetchView::Steps(steps))];
    let events = first + later;
    if later.len() > 0 {
        assert(events.drop_last() =~= first + later.drop_last());
        law_plan_arranges_fetched(source, test_id, report, steps, later.drop_last());
        law_launches_follow_plan(source, test_id, report, events.drop_last());
        lemma_transition(drive(start, events.drop_last()).0, events.last());
    }
}

/// A run over one event is one transition.
pub proof fn lemma_drive_one(s: RunView, event: EventView)
    ensures
        drive(s, seq![event]) == (transition(s, event).0, seq![transition(s, event).1]),
{
    assert(drive(s, seq![event].drop_last()) == (s, Seq::<ActionView>::empty()));
}

/// A run over events and then more events is the run over the first, gone
/// on with over the others.
pub proof fn lemma_drive_split(s: RunView, first: Seq<EventView>, later: Seq<EventView>)
    ensures
        drive(s, first + later).0 == drive(drive(s, first).0, later).0,
        drive(s, first + later).1 == drive(s, first).1 + drive(drive(s, first).0, later).1,
    decreases later.len(),
{
    if later.len() > 0 {
        assert((first + later).drop_last() =~= first + later.drop_last());
        lemma_drive_split(s, first, later.drop_last());
    }
}

/// The launches of actions and then more actions are the launches of the
/// first and then those of the others.
pub proof fn lemma_launches_split(first: Seq<ActionView>, later: Seq<ActionView>)
    ensures
        launches(first + later) == launches(first) + launches(later),
    decreases later.len(),
{
    if later.len() > 0 {
        assert((first + later).drop_last() =~= first + later.drop_last());
        lemma_launches_split(first, later.drop_last());
    }
}

/// The launches of one action are what it asks for.
pub proof fn lemma_launches_one(action: ActionView)
    ensures
        launches(seq![action]) == launch_of(action),
{
    assert(launches(seq![action].drop_last()) =~= Seq::<InvocationView>::empty());
}

/// A run that has no step left stays so: whatever events come, nothing is
/// launched any more and its summary stays as it is.
pub proof fn lemma_settled(s: RunView, events: Seq<EventView>)
    requires
        valid(s),
        s.phase == Phase::Reporting || s.phase == Phase::Finished,
    ensures
        valid(drive(s, events).0),
        drive(s, events).0.phase == Phase::Reporting || drive(s, events).0.phase
            == Phase::Finished,
        drive(s, events).0.phase == Phase::Reporting ==> s.phase == Phase::Reporting,
        drive(s, events).0.plan == s.plan,
        summary_of(drive(s, events).0) == summary_of(s),
        drive(s, events).1.len() == events.len(),
        launches(drive(s, events).1) == Seq::<InvocationView>::empty(),
        forall|i: int|
            0 <= i < events.len() ==> !(#[trigger] drive(s, events).1[i] is Launch) && !(drive(
                s,
                events,
            ).1[i] is Fetch) && !(drive(s, events).1[i] is Report),
        s.phase == Phase::Finished ==> forall|i: int|
            0 <= i < events.len() ==> #[trigger] drive(s, events).1[i] == ActionView::Rejected,
    decreases events.len(),
{
    if events.len() > 0 {
        lemma_settled(s, events.drop_last());
        let before = drive(s, events.drop_last());
        lemma_transition(before.0, events.last());
        assert(drive(s, events).1.drop_last() =~= before.1);
    }
}

/// Processes end one after another in a run that is executing: each counts
/// as attempted, those that are no success count as failed, and the run
/// goes on until no step is left, whatever became of any of them.
pub proof fn lemma_exits(s: RunView, exits: Seq<ExitView>)
    requires
        valid(s),
        s.phase == Phase::Executing,
        s.cursor + exits.len() <= s.plan.len(),
    ensures
        valid(drive(s, Seq::new(exits.len(), |i: int| EventView::Exited(exits[i]))).0),
        drive(s, Seq::new(exits.len(), |i: int| EventView::Exited(exits[i]))).0 == (RunView {
            cursor: s.cursor + exits.len(),
            failed: s.failed + failures(exits),
            phase: if s.cursor + exits.len() < s.plan.len() {
                Phase::Executing
            } else if s.report {
                Phase::Reporting
            } else {
                Phase::Finished
            },
            ..s
        }),
    decreases exits.len(),
{
    let events = Seq::new(exits.len(), |i: int| EventView::Exited(exits[i]));
    let fails = |x: ExitView| !succeeded(x);
    if exits.len() == 0 {
        reveal(Seq::filter);
    } else {
        let leading = exits.drop_last();
        lemma_exits(s, leading);
        assert(events.drop_last() =~= Seq::new(leading.len(), |i: int| EventView::Exited(leading[i])));
        assert(exits =~= leading.push(exits.last()));
        leading.lemma_filter_push(exits.last(), fails);
        let before = drive(s, events.drop_last()).0;
        lemma_transition(before, events.last());
    }
}

/// A test without steps: no process is ever launched; the run is over at
/// once, with the status `NoSteps` and nothing attempted; and nothing is
/// reported to the step source, whatever the caller asked for and whatever
/// events follow.
pub proof fn law_no_steps(
    source: SourceView,
    test_id: Seq<char>,
    report: bool,
    later: Seq<EventView>,
)
    ensures
        ({
            let first = EventView::Fetched(FetchView::Steps(Seq::empty()));
            let run = drive(initial(source, test_id, report), seq![first] + later);
            &&& launches(run.1) == Seq::<InvocationView>::empty()
            &&& run.0.phase == Phase::Finished
            &&& summary_of(run.0).final_status == FinalStatus::NoSteps
            &&& summary_of(run.0).attempted == 0
            &&& summary_of(run.0).failed == 0
            &&& summary_of(run.0).error_detail is None
            &&& run.1[0] == (ActionView::Done {
                notices: seq![final_line(summary_of(run.0))],
                summary: summary_of(run.0),
            })
            &&& forall|i: int| 0 < i <= later.len() ==> #[trigger] run.1[i] == ActionView::Rejected
        }),
{
    let first = EventView::Fetched(FetchView::Steps(Seq::empty()));
    let start = initial(source, test_id, report);
    let next = transition(start, first);
    lemma_drive_one(start, first);
    lemma_drive_split(start, seq![first], later);
    lemma_transition(start, first);
    lemma_settled(next.0, later);
    lemma_launches_split(seq![next.1], drive(next.0, later).1);
    lemma_launches_one(next.1);
}

/// The steps cannot be fetched because the service answers with an error:
/// no process is ever launched, and the run has failed with the text of the
/// remote error as its detail, whatever events follow.
pub proof fn law_remote_error_ends_run(
    source: SourceView,
    test_id: Seq<char>,
    report: bool,
    e: RemoteErrorView,
    later: Seq<EventView>,
)
    ensures
        ({
            let first = EventView::Fetched(FetchView::Remote(e));
            let run = drive(initial(source, test_id, report), seq![first] + later);
            &&& launches(run.1) == Seq::<InvocationView>::empty()
            &&& run.0.phase == Phase::Reporting || run.0.phase == Phase::Finished
            &&& summary_of(run.0).final_status == FinalStatus::Failed
            &&& summary_of(run.0).attempted == 0
            &&& summary_of(run.0).failed == 0
            &&& summary_of(run.0).error_detail == Some(remote_text(e))
        }),
{
    let first = EventView::Fetched(FetchView::Remote(e));
    lemma_fetch_failure(source, test_id, report, first, remote_text(e), later);
}

/// The steps cannot be fetched because the service is not reached: no
/// process is ever launched, and the run has failed with the message of the
/// failure as its detail, whatever events follow.
pub proof fn law_unreachable_ends_run(
    source: SourceView,
    test_id: Seq<char>,
    report: bool,
    message: Seq<char>,
    later: Seq<EventView>,
)
    ensures
        ({
            let first = EventView::Fetched(FetchView::Unreachable(message));
            let run = drive(initial(source, test_id, report), seq![first] + later);
            &&& launches(run.1) == Seq::<InvocationView>::empty()
            &&& run.0.phase == Phase::Reporting || run.0.phase == Phase::Finished
            &&& summary_of(run.0).final_status == FinalStatus::Failed
            &&& summary_of(run.0).attempted == 0
            &&& summary_of(run.0).failed == 0
            &&& summary_of(run.0).error_detail == Some(message)
        }),
{
    let first = EventView::Fetched(FetchView::Unreachable(message));
    lemma_fetch_failure(source, test_id, report, first, message, later);
}

proof fn lemma_fetch_failure(
    source: SourceView,
    test_id: Seq<char>,
    report: bool,
    first: EventView,
    detail: Seq<char>,
    later: Seq<EventView>,
)
    requires
        first matches EventView::Fetched(outcome) && match outcome {
            FetchView::Steps(_) => false,
            FetchView::Remote(e) => detail == remote_text(e),
            FetchView::Unreachable(message) => detail == message,
        },
    ensures
        ({
            let run = drive(initial(source, test_id, report), seq![first] + later);
            &&& launches(run.1) == Seq::<InvocationView>::empty()
            &&& run.0.phase == Phase::Reporting || run.0.phase == Phase::Finished
            &&& summary_of(run.0).final_status == FinalStatus::Failed
            &&& summary_of(run.0).attempted == 0
            &&& summary_of(run.0).failed == 0
            &&& summary_of(run.0).error_detail == Some(detail)
        }),
{
    let start = initial(source, test_id, report);
    let next = transition(start, first);
    lemma_drive_one(start, first);
    lemma_drive_split(start, seq![first], later);
    lemma_transition(start, first);
    lemma_settled(next.0, later);
    lemma_launches_split(seq![next.1], drive(next.0, later).1);
    lemma_launches_one(next.1);
}

/// A run whose steps come and whose processes all end, one for each step:
/// every step is launched, in the plan's sequence, whatever became of the
/// steps before it; all steps count as attempted; those whose process was no
/// success count as failed; and the run has failed if any step failed and
/// has passed if none did.
pub proof fn law_complete_run(
    source: SourceView,
    test_id: Seq<char>,
    report: bool,
    steps: Seq<StepView>,
    exits: Seq<ExitView>,
)
    requires
        steps.len() > 0,
        exits.len() == steps.len(),
    ensures
        ({
            let run = drive(initial(source, test_id, report), script(steps, exits));
            &&& launches(run.1) == invocations(arranged(steps))
            &&& run.0.phase == if report {
                Phase::Reporting
            } else {
                Phase::Finished
            }
            &&& summary_of(run.0).attempted == steps.len()
            &&& summary_of(run.0).failed == failures(exits)
            &&& summary_of(run.0).final_status == if failures(exits) > 0 {
                FinalStatus::Failed
            } else {
                FinalStatus::Passed
            }
            &&& summary_of(run.0).error_detail is None
        }),
{
    let start = initial(source, test_id, report);
    let first = EventView::Fetched(FetchView::Steps(steps));
    let rest = Seq::new(exits.len(), |i: int| EventView::Exited(exits[i]));
    let next = transition(start, first);
    law_arranged_len(steps);
    lemma_drive_one(start, first);
    lemma_drive_split(start, seq![first], rest);
    lemma_transition(start, first);
    lemma_exits(next.0, exits);
    law_launches_follow_plan(source, test_id, report, script(steps, exits));
    let run = drive(start, script(steps, exits));
}

/// Continue on failure: where the process of some step is no success, every
/// step is launched all the same, and the run has failed.
pub proof fn law_failure_does_not_stop(
    source: SourceView,
    test_id: Seq<char>,
    report: bool,
    steps: Seq<StepView>,
    exits: Seq<ExitView>,
    k: int,
)
    requires
        steps.len() > 0,
        exits.len() == steps.len(),
        0 <= k < exits.len(),
        !succeeded(exits[k]),
    ensures
        ({
            let run = drive(initial(source, test_id, report), script(steps, exits));
            &&& launches(run.1) == invocations(arranged(steps))
            &&& launches(run.1).len() == steps.len()
            &&& summary_of(run.0).attempted == steps.len()
            &&& summary_of(run.0).failed > 0
            &&& summary_of(run.0).final_status == FinalStatus::Failed
        }),
{
    law_complete_run(source, test_id, report, steps, exits);
    law_arranged_len(steps);
    let fails = |x: ExitView| !succeeded(x);
    exits.lemma_filter_contains(fails, k);
}

/// Where the processes of all steps end with success, the run has passed
/// and no step counts as failed.
pub proof fn law_all_succeed(
    source: SourceView,
    test_id: Seq<char>,
    report: bool,
    steps: Seq<StepView>,
    exits: Seq<ExitView>,
)
    requires
        steps.len() > 0,
        exits.len() == steps.len(),
        forall|k: int| 0 <= k < exits.len() ==> succeeded(#[trigger] exits[k]),
    ensures
        ({
            let run = drive(initial(source, test_id, report), script(steps, exits));
            &&& summary_of(run.0).final_status == FinalStatus::Passed
            &&& summary_of(run.0).attempted == steps.len()
            &&& summary_of(run.0).failed == 0
        }),
{
    law_complete_run(source, test_id, report, steps, exits);
    let fails = |x: ExitView| !succeeded(x);
    exits.lemma_all_neg_filter_empty(fails);
}

/// Whenever a run has no step left, its summary is consistent.
pub proof fn law_summary_consistent(
    source: SourceView,
    test_id: Seq<char>,
    report: bool,
    events: Seq<EventView>,
)
    requires
        drive(initial(source, test_id, report), events).0.phase == Phase::Reporting || drive(
            initial(source, test_id, report),
            events,
        ).0.phase == Phase::Finished,
    ensures
        consistent(summary_of(drive(initial(source, test_id, report), events).0)),
        summary_of(drive(initial(source, test_id, report), events).0).test_id == test_id,
{
    law_launches_follow_plan(source, test_id, report, events);
}

/// The end of a run is reported only where the caller asked for it and the
/// test had steps or could not be fetched; the report carries the word for
/// the final status and the error detail.
pub proof fn law_report_only_when_asked(s: RunView, event: EventView)
    requires
        valid(s),
        transition(s, event).1 is Report,
    ensures
        s.report,
        transition(s, event).0.phase == Phase::Reporting,
        summary_of(transition(s, event).0).final_status != FinalStatus::NoSteps,
        transition(s, event).1->Report_request == finish_request(
            s.source,
            s.test_id,
            status_word(summary_of(transition(s, event).0).final_status),
            summary_of(transition(s, event).0).error_detail,
        ),
{
}

/// Reporting is best effort: however the report is answered, the run is
/// over with the summary it had.
pub proof fn law_report_keeps_summary(s: RunView, outcome: FinishView)
    requires
        valid(s),
        s.phase == Phase::Reporting,
    ensures
        transition(s, EventView::Reported(outcome)).0.phase == Phase::Finished,
        summary_of(transition(s, EventView::Reported(outcome)).0) == summary_of(s),
        transition(s, EventView::Reported(outcome)).1 is Done,
        transition(s, EventView::Reported(outcome)).1->Done_summary == summary_of(s),
{
}

} // verus!
