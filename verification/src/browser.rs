//! The `browser` command: either the run of a test's steps, or a single
//! invocation of the automation executable with the arguments as given.

use vstd::prelude::*;
use vstd::string::StringExecFns;
use crate::executor::{program_name, Invocation, InvocationView};
use crate::reporter::{Line, LineView};
use crate::text::same_text;

verus! {

/// Whether `--repo` stands at place `i` and an argument follows it.
pub open spec fn repo_flag_at(args: Seq<String>, i: int) -> bool {
    0 <= i && i + 1 < args.len() && args[i]@ == "--repo"@
}

/// The argument that follows the first `--repo` that has one behind it.
pub fn extract_repo_arg(args: &[String]) -> (r: Option<String>)
    ensures
        match r {
            Some(repo) => exists|i: int|
                {
                    &&& #[trigger] repo_flag_at(args@, i)
                    &&& forall|j: int| 0 <= j < i ==> !repo_flag_at(args@, j)
                    &&& repo@ == args@[i + 1]@
                },
            None => forall|i: int| !repo_flag_at(args@, i),
        },
{
    let mut i: usize = 0;
    while i < args.len()
        invariant
            i <= args.len(),
            forall|j: int| 0 <= j < i ==> !repo_flag_at(args@, j),
        decreases args.len() - i,
    {
        if same_text(args[i].as_str(), "--repo") && i + 1 < args.len() {
            assert(repo_flag_at(args@, i as int));
            return Some(args[i + 1].clone());
        }
        i = i + 1;
    }
    None
}

/// Whether one of the arguments is `flag`.
pub fn has_flag(args: &[String], flag: &str) -> (r: bool)
    ensures
        r == exists|i: int| 0 <= i < args@.len() && (#[trigger] args@[i])@ == flag@,
{
    let mut i: usize = 0;
    while i < args.len()
        invariant
            i <= args.len(),
            forall|j: int| 0 <= j < i ==> (#[trigger] args@[j])@ != flag@,
        decreases args.len() - i,
    {
        if same_text(args[i].as_str(), flag) {
            return true;
        }
        i = i + 1;
    }
    false
}

/// What a `browser` command asks for.
#[derive(Debug, Clone, PartialEq, Eq)]
pub enum BrowserCommand {
    /// Run the steps of a test of a repository; with `report` set, report
    /// the end of the run to the step source.
    Navigate { test_id: String, repo: String, report: bool },
    /// `navigate` without a repository: nothing is done but to say so.
    MissingRepo { notices: Vec<Line> },
    /// Hand the arguments to the automation executable as they are.
    Passthrough { invocation: Invocation },
}

/// What is said where `navigate` names no repository.
pub open spec fn missing_repo_lines() -> Seq<LineView> {
    seq![
        LineView::Stderr("Error: --repo flag is required for 'navigate' command"@),
        LineView::Stderr("Usage: agelum browser navigate <test_id> --repo <repo>"@),
    ]
}

/// Whether the arguments are those of `navigate`: that word and at least
/// one more argument.
pub open spec fn is_navigate(args: Seq<String>) -> bool {
    args.len() >= 2 && args[0]@ == "navigate"@
}

/// Reads the arguments of a `browser` command: `navigate` with a test and a
/// repository runs the test, with `--report` among the arguments reporting
/// its end; `navigate` without a repository is refused; anything else goes
/// to the automation executable unchanged.
pub fn browser_command(args: Vec<String>) -> (r: BrowserCommand)
    ensures
        match r {
            BrowserCommand::Navigate { test_id, repo, report } => {
                &&& is_navigate(args@)
                &&& test_id@ == args@[1]@
                &&& exists|i: int|
                    {
                        &&& #[trigger] repo_flag_at(args@, i)
                        &&& forall|j: int| 0 <= j < i ==> !repo_flag_at(args@, j)
                        &&& repo@ == args@[i + 1]@
                    }
                &&& report == exists|i: int|
                    0 <= i < args@.len() && (#[trigger] args@[i])@ == "--report"@
            },
            BrowserCommand::MissingRepo { notices } => {
                &&& is_navigate(args@)
                &&& forall|i: int| !repo_flag_at(args@, i)
                &&& notices.deep_view() == missing_repo_lines()
            },
            BrowserCommand::Passthrough { invocation } => {
                &&& !is_navigate(args@)
                &&& invocation@ == InvocationView {
                    program: program_name(),
                    args: args.deep_view(),
                }
            },
        },
{
    if args.len() >= 2 && same_text(args[0].as_str(), "navigate") {
        match extract_repo_arg(args.as_slice()) {
            Some(repo) => {
                let report = has_flag(args.as_slice(), "--report");
                BrowserCommand::Navigate { test_id: args[1].clone(), repo, report }
            },
            None => {
                let mut notices: Vec<Line> = Vec::new();
                notices.push(
                    Line::Stderr(
                        String::from_str("Error: --repo flag is required for 'navigate' command"),
                    ),
                );
                notices.push(
                    Line::Stderr(
                        String::from_str("Usage: agelum browser navigate <test_id> --repo <repo>"),
                    ),
                );
                BrowserCommand::MissingRepo { notices }
            },
        }
    } else {
        BrowserCommand::Passthrough {
            invocation: Invocation { program: String::from_str("agent-browser"), args },
        }
    }
}

} // verus!
