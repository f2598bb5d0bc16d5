//! The step executor: how a step becomes an invocation of the automation
//! executable, and how the way the process ended is judged.

use vstd::prelude::*;
use vstd::string::StringExecFns;
use crate::text::{decimal, int_text};
use crate::types::{StepView, TestStep};

verus! {

/// An invocation of a program with its arguments.
#[derive(Debug, Clone, PartialEq, Eq)]
pub struct Invocation {
    pub program: String,
    pub args: Vec<String>,
}

/// An invocation as plain values.
pub struct InvocationView {
    pub program: Seq<char>,
    pub args: Seq<Seq<char>>,
}

impl View for Invocation {
    type V = InvocationView;

    open spec fn view(&self) -> InvocationView {
        InvocationView { program: self.program@, args: self.args.deep_view() }
    }
}

/// How a launched process ended, or that it could not be launched.
#[derive(Debug, Clone, PartialEq, Eq)]
pub enum ProcessExit {
    /// The executable was missing or could not be started.
    LaunchFailed { reason: String },
    /// The process ran and ended, with an exit code unless a signal ended it.
    Exited { code: Option<i32> },
}

/// A process exit as plain values.
pub enum ExitView {
    LaunchFailed { reason: Seq<char> },
    Exited { code: Option<i32> },
}

impl View for ProcessExit {
    type V = ExitView;

    open spec fn view(&self) -> ExitView {
        match self {
            ProcessExit::LaunchFailed { reason } => ExitView::LaunchFailed { reason: reason@ },
            ProcessExit::Exited { code } => ExitView::Exited { code: *code },
        }
    }
}

impl DeepView for ProcessExit {
    type V = ExitView;

    open spec fn deep_view(&self) -> ExitView {
        self.view()
    }
}

/// What became of one step.
#[derive(Debug, Clone, PartialEq, Eq)]
pub struct StepOutcome {
    pub step_id: String,
    pub launched: bool,
    pub exit_success: bool,
    pub diagnostic: Option<String>,
}

/// A step outcome as plain values.
pub struct OutcomeView {
    pub step_id: Seq<char>,
    pub launched: bool,
    pub exit_success: bool,
    pub diagnostic: Option<Seq<char>>,
}

impl View for StepOutcome {
    type V = OutcomeView;

    open spec fn view(&self) -> OutcomeView {
        OutcomeView {
            step_id: self.step_id@,
            launched: self.launched,
            exit_success: self.exit_success,
            diagnostic: self.diagnostic.deep_view(),
        }
    }
}

/// The name of the automation executable.
pub open spec fn program_name() -> Seq<char> {
    "agent-browser"@
}

/// The invocation that performs a step: the automation executable, with the
/// step's command and then its arguments as they are.
pub open spec fn invocation_of(step: StepView) -> InvocationView {
    InvocationView { program: program_name(), args: seq![step.command] + step.args }
}

/// A process succeeded when it was launched and ended with exit code 0.
pub open spec fn succeeded(exit: ExitView) -> bool {
    exit == (ExitView::Exited { code: Some(0i32) })
}

/// How the end of a process that ran is put in words.
pub open spec fn status_text(code: Option<i32>) -> Seq<char> {
    match code {
        Some(c) => "exit status: "@ + decimal(c as int),
        None => "ended by a signal"@,
    }
}

/// What is said of an exit that is no success.
pub open spec fn diagnostic_of(exit: ExitView) -> Option<Seq<char>> {
    match exit {
        ExitView::LaunchFailed { reason } => Some("agent-browser could not be launched: "@ + reason),
        ExitView::Exited { code } => if code == Some(0i32) {
            None
        } else {
            Some("agent-browser command failed with status: "@ + status_text(code))
        },
    }
}

/// The outcome of the step `step_id` whose process ended as `exit` says.
pub open spec fn outcome_of(step_id: Seq<char>, exit: ExitView) -> OutcomeView {
    OutcomeView {
        step_id,
        launched: exit is Exited,
        exit_success: succeeded(exit),
        diagnostic: diagnostic_of(exit),
    }
}

/// A step counts as failed when it was not launched or did not end with
/// success.
pub open spec fn failing(outcome: OutcomeView) -> bool {
    !(outcome.launched && outcome.exit_success)
}

/// Builds the invocation that performs a step.
pub fn invocation(step: &TestStep) -> (r: Invocation)
    ensures
        r@ == invocation_of(step@),
{
    let mut args: Vec<String> = Vec::new();
    args.push(step.command.clone());
    let mut i: usize = 0;
    while i < step.args.len()
        invariant
            i <= step.args.len(),
            args@.len() == i + 1,
            args@[0] == step.command,
            forall|k: int| 0 <= k < i ==> args@[k + 1] == step.args@[k],
        decreases step.args.len() - i,
    {
        args.push(step.args[i].clone());
        i = i + 1;
    }
    assert(args.deep_view() =~= seq![step@.command] + step@.args);
    Invocation { program: String::from_str("agent-browser"), args }
}

impl ProcessExit {
    /// Whether the process was launched and ended with exit code 0.
    pub fn success(&self) -> (r: bool)
        ensures
            r == succeeded(self@),
    {
        match self {
            ProcessExit::LaunchFailed { .. } => false,
            ProcessExit::Exited { code } => match code {
                Some(c) => *c == 0,
                None => false,
            },
        }
    }

    /// What is said of the exit if it is no success.
    pub fn diagnostic(&self) -> (r: Option<String>)
        ensures
            r.deep_view() == diagnostic_of(self@),
    {
        match self {
            ProcessExit::LaunchFailed { reason } => {
                let mut text = String::from_str("agent-browser could not be launched: ");
                text.append(reason.as_str());
                Some(text)
            },
            ProcessExit::Exited { code } => {
                let mut text = String::from_str("agent-browser command failed with status: ");
                match code {
                    Some(c) => {
                        if *c == 0 {
                            return None;
                        }
                        let number = int_text(*c as i64);
                        let mut status = String::from_str("exit status: ");
                        status.append(number.as_str());
                        text.append(status.as_str());
                    },
                    None => {
                        text.append("ended by a signal");
                    },
                }
                Some(text)
            },
        }
    }
}

/// Judges the end of a step's process.
pub fn classify(step: &TestStep, exit: &ProcessExit) -> (r: StepOutcome)
    ensures
        r@ == outcome_of(step@.id, exit@),
{
    let launched = match exit {
        ProcessExit::LaunchFailed { .. } => false,
        ProcessExit::Exited { .. } => true,
    };
    StepOutcome {
        step_id: step.id.clone(),
        launched,
        exit_success: exit.success(),
        diagnostic: exit.diagnostic(),
    }
}

impl StepOutcome {
    /// Whether the step counts as failed: it was not launched, or did not end
    /// with success.
    pub fn failed(&self) -> (r: bool)
        ensures
            r == failing(self@),
    {
        !(self.launched && self.exit_success)
    }
}

} // verus!
