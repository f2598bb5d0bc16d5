//! The lines that show what the service answered: records, one per line or
//! block, and the fixed lines of the commands on tests.

use vstd::prelude::*;
use vstd::string::StringExecFns;
use crate::reporter::{Line, LineView};
use crate::text::{decimal, int_text, join, joined};
use crate::types::{
    EntityType, Repository, RepositoryResponse, Task, Test, TestExecution, TestGroup, TestStep,
};

verus! {

/// The line that shows a repository.
pub open spec fn repository_line(r: Repository) -> LineView {
    LineView::Stdout("- "@ + r.name@ + " ("@ + r.path@ + ")"@)
}

/// The lines that show the repositories: the error that came with them, if
/// one did, and then a line for each.
pub open spec fn repository_lines(answer: RepositoryResponse) -> Seq<LineView> {
    let head = match answer.error {
        Some(e) => seq![LineView::Stderr("API Error: "@ + e@)],
        None => Seq::empty(),
    };
    head + Seq::new(answer.repositories@.len(), |i: int| repository_line(answer.repositories@[i]))
}

/// The line that shows a task.
pub open spec fn task_line(t: Task) -> LineView {
    LineView::Stdout("- ["@ + t.id@ + "] "@ + t.title@ + " (State: "@ + t.state@ + ")"@)
}

/// The lines that show tasks, one for each.
pub open spec fn task_lines(tasks: Seq<Task>) -> Seq<LineView> {
    Seq::new(tasks.len(), |i: int| task_line(tasks[i]))
}

/// The line that shows a description, where there is one.
pub open spec fn description_lines(description: Option<String>) -> Seq<LineView> {
    match description {
        Some(d) => seq![LineView::Stdout("  Description: "@ + d@)],
        None => Seq::empty(),
    }
}

/// The lines that show a test group: its identifier and name, then its
/// description if it has one.
pub open spec fn group_block(g: TestGroup) -> Seq<LineView> {
    seq![LineView::Stdout("- ["@ + g.id@ + "] "@ + g.name@)] + description_lines(g.description)
}

/// The lines that show test groups, block after block.
pub open spec fn group_lines(groups: Seq<TestGroup>) -> Seq<LineView>
    decreases groups.len(),
{
    if groups.len() == 0 {
        Seq::empty()
    } else {
        group_lines(groups.drop_last()) + group_block(groups.last())
    }
}

/// What is said of the group of a test, where it has one.
pub open spec fn group_note(group: Option<String>) -> Seq<char> {
    match group {
        Some(g) => " [Group: "@ + g@ + "]"@,
        None => Seq::empty(),
    }
}

/// The lines that show a test: its identifier, name and group, then its
/// description if it has one.
pub open spec fn test_block(t: Test) -> Seq<LineView> {
    seq![LineView::Stdout("- ["@ + t.id@ + "] "@ + t.name@ + group_note(t.group))]
        + description_lines(t.description)
}

/// The lines that show tests, block after block.
pub open spec fn test_lines(tests: Seq<Test>) -> Seq<LineView>
    decreases tests.len(),
{
    if tests.len() == 0 {
        Seq::empty()
    } else {
        test_lines(tests.drop_last()) + test_block(tests.last())
    }
}

/// The line that shows a step of a test.
pub open spec fn listed_step_line(s: TestStep) -> LineView {
    LineView::Stdout(
        "  "@ + decimal(s.order as int) + ") "@ + s.command@ + " "@ + joined(
            s.args.deep_view(),
            " "@,
        ),
    )
}

/// The lines that show the steps of a test as the service gave them: a
/// heading and a line for each, or the word that there are none.
pub open spec fn step_listing(test_id: Seq<char>, steps: Seq<TestStep>) -> Seq<LineView> {
    if steps.len() == 0 {
        seq![LineView::Stdout("No steps found for test "@ + test_id)]
    } else {
        seq![LineView::Stdout("Test Steps for "@ + test_id + ":"@)] + Seq::new(
            steps.len(),
            |i: int| listed_step_line(steps[i]),
        )
    }
}

/// What is said of the error of a past run, where it had one.
pub open spec fn error_note(error: Option<String>) -> Seq<char> {
    match error {
        Some(e) => " (Error: "@ + e@ + ")"@,
        None => Seq::empty(),
    }
}

/// The line that shows a past run of a test.
pub open spec fn execution_line(x: TestExecution) -> LineView {
    LineView::Stdout(
        "  ["@ + x.id@ + "/"@ + x.timestamp@ + "] "@ + x.test_id@ + " - Status: "@ + x.status@
            + error_note(x.error),
    )
}

/// The lines that show the past runs of a test in the sequence in which
/// the service gave them: a heading and a line for each, or the word that
/// there are none.
pub open spec fn execution_listing(test_id: Seq<char>, runs: Seq<TestExecution>) -> Seq<LineView> {
    if runs.len() == 0 {
        seq![LineView::Stdout("No executions found for test "@ + test_id)]
    } else {
        seq![LineView::Stdout("Test Executions for "@ + test_id + ":"@)] + Seq::new(
            runs.len(),
            |i: int| execution_line(runs[i]),
        )
    }
}

/// The lines that show the content of a file, or that none came.
pub open spec fn content_lines(content: Option<Seq<char>>) -> Seq<LineView> {
    match content {
        Some(text) => seq![LineView::Stdout(text)],
        None => seq![LineView::Stderr("No content returned or invalid format"@)],
    }
}

/// What is said of the command that changes how the assistant is set up for
/// a kind of entity: it is not there yet.
pub open spec fn modify_ai_lines(entity: EntityType, repo: Seq<char>, config: Seq<char>) -> Seq<
    LineView,
> {
    seq![
        LineView::Stdout(
            "ModifyAI command for "@ + entity.name() + " in repo "@ + repo
                + " not yet implemented"@,
        ),
        LineView::Stdout("Config: "@ + config),
    ]
}

/// What is said of the command that starts the assistant for a kind of
/// entity: it is not there yet.
pub open spec fn start_ai_lines(entity: EntityType, repo: Seq<char>) -> Seq<LineView> {
    seq![
        LineView::Stdout(
            "StartAI command for "@ + entity.name() + " in repo "@ + repo
                + " not yet implemented"@,
        ),
    ]
}

/// Said when a step has been added to a test.
pub open spec fn step_added_line() -> LineView {
    LineView::Stdout("✓ Test step added successfully"@)
}

/// Said when a test has been marked as started.
pub open spec fn test_started_line() -> LineView {
    LineView::Stdout("✓ Test started successfully"@)
}

/// Said when the end of a test has been recorded with `status`.
pub open spec fn test_finished_line(status: Seq<char>) -> LineView {
    LineView::Stdout("✓ Test finished with status: "@ + status)
}

fn push_description(lines: &mut Vec<Line>, description: &Option<String>)
    ensures
        final(lines).deep_view() == old(lines).deep_view() + description_lines(*description),
{
    match description {
        Some(d) => {
            let mut text = String::from_str("  Description: ");
            text.append(d.as_str());
            lines.push(Line::Stdout(text));
        },
        None => {},
    }
}

/// Shows the repositories.
pub fn show_repositories(answer: &RepositoryResponse) -> (r: Vec<Line>)
    ensures
        r.deep_view() == repository_lines(*answer),
{
    let mut lines: Vec<Line> = Vec::new();
    match &answer.error {
        Some(e) => {
            let mut text = String::from_str("API Error: ");
            text.append(e.as_str());
            lines.push(Line::Stderr(text));
        },
        None => {},
    }
    let ghost head = lines.deep_view();
    let mut i: usize = 0;
    while i < answer.repositories.len()
        invariant
            i <= answer.repositories.len(),
            lines.deep_view() == head + Seq::new(
                i as nat,
                |k: int| repository_line(answer.repositories@[k]),
            ),
        decreases answer.repositories.len() - i,
    {
        let repo = &answer.repositories[i];
        let ghost before = lines.deep_view();
        let mut text = String::from_str("- ");
        text.append(repo.name.as_str());
        text.append(" (");
        text.append(repo.path.as_str());
        text.append(")");
        lines.push(Line::Stdout(text));
        assert(lines.deep_view() =~= before.push(repository_line(*repo)));
        i = i + 1;
    }
    lines
}

/// Shows tasks.
pub fn show_tasks(tasks: &Vec<Task>) -> (r: Vec<Line>)
    ensures
        r.deep_view() == task_lines(tasks@),
{
    let mut lines: Vec<Line> = Vec::new();
    let mut i: usize = 0;
    while i < tasks.len()
        invariant
            i <= tasks.len(),
            lines@.len() == i,
            forall|k: int| 0 <= k < i ==> (#[trigger] lines@[k])@ == task_line(tasks@[k]),
        decreases tasks.len() - i,
    {
        let task = &tasks[i];
        let mut text = String::from_str("- [");
        text.append(task.id.as_str());
        text.append("] ");
        text.append(task.title.as_str());
        text.append(" (State: ");
        text.append(task.state.as_str());
        text.append(")");
        lines.push(Line::Stdout(text));
        i = i + 1;
    }
    lines
}

/// Shows test groups.
pub fn show_groups(groups: &Vec<TestGroup>) -> (r: Vec<Line>)
    ensures
        r.deep_view() == group_lines(groups@),
{
    let mut lines: Vec<Line> = Vec::new();
    let mut i: usize = 0;
    while i < groups.len()
        invariant
            i <= groups.len(),
            lines.deep_view() == group_lines(groups@.take(i as int)),
        decreases groups.len() - i,
    {
        let group = &groups[i];
        let mut text = String::from_str("- [");
        text.append(group.id.as_str());
        text.append("] ");
        text.append(group.name.as_str());
        lines.push(Line::Stdout(text));
        push_description(&mut lines, &group.description);
        assert(groups@.take(i + 1).drop_last() =~= groups@.take(i as int));
        i = i + 1;
    }
    assert(groups@.take(groups.len() as int) =~= groups@);
    lines
}

/// Shows tests.
pub fn show_tests(tests: &Vec<Test>) -> (r: Vec<Line>)
    ensures
        r.deep_view() == test_lines(tests@),
{
    let mut lines: Vec<Line> = Vec::new();
    let mut i: usize = 0;
    while i < tests.len()
        invariant
            i <= tests.len(),
            lines.deep_view() == test_lines(tests@.take(i as int)),
        decreases tests.len() - i,
    {
        let test = &tests[i];
        let mut text = String::from_str("- [");
        text.append(test.id.as_str());
        text.append("] ");
        text.append(test.name.as_str());
        match &test.group {
            Some(g) => {
                let mut note = String::from_str(" [Group: ");
                note.append(g.as_str());
                note.append("]");
                text.append(note.as_str());
            },
            None => {},
        }
        lines.push(Line::Stdout(text));
        push_description(&mut lines, &test.description);
        assert(tests@.take(i + 1).drop_last() =~= tests@.take(i as int));
        i = i + 1;
    }
    assert(tests@.take(tests.len() as int) =~= tests@);
    lines
}

/// Shows the steps of a test as the service gave them.
pub fn show_steps(test_id: &str, steps: &Vec<TestStep>) -> (r: Vec<Line>)
    ensures
        r.deep_view() == step_listing(test_id@, steps@),
{
    let mut lines: Vec<Line> = Vec::new();
    if steps.len() == 0 {
        let mut text = String::from_str("No steps found for test ");
        text.append(test_id);
        lines.push(Line::Stdout(text));
        return lines;
    }
    let mut head = String::from_str("Test Steps for ");
    head.append(test_id);
    head.append(":");
    lines.push(Line::Stdout(head));
    let mut i: usize = 0;
    while i < steps.len()
        invariant
            i <= steps.len(),
            lines@.len() == i + 1,
            lines@[0]@ == LineView::Stdout("Test Steps for "@ + test_id@ + ":"@),
            forall|k: int| 0 <= k < i ==> (#[trigger] lines@[k + 1])@ == listed_step_line(steps@[k]),
        decreases steps.len() - i,
    {
        let step = &steps[i];
        let mut text = String::from_str("  ");
        let number = int_text(step.order as i64);
        text.append(number.as_str());
        text.append(") ");
        text.append(step.command.as_str());
        text.append(" ");
        let args = join(&step.args, " ");
        text.append(args.as_str());
        lines.push(Line::Stdout(text));
        i = i + 1;
    }
    proof {
        let wanted = step_listing(test_id@, steps@);
        assert forall|k: int| 0 <= k < wanted.len() implies lines.deep_view()[k] == wanted[k] by {
            if k > 0 {
                assert(lines@[(k - 1) + 1]@ == listed_step_line(steps@[k - 1]));
            }
        }
    }
    lines
}

/// Shows the past runs of a test, in the sequence in which the service
/// gave them.
pub fn show_executions(test_id: &str, runs: &Vec<TestExecution>) -> (r: Vec<Line>)
    ensures
        r.deep_view() == execution_listing(test_id@, runs@),
{
    let mut lines: Vec<Line> = Vec::new();
    if runs.len() == 0 {
        let mut text = String::from_str("No executions found for test ");
        text.append(test_id);
        lines.push(Line::Stdout(text));
        return lines;
    }
    let mut head = String::from_str("Test Executions for ");
    head.append(test_id);
    head.append(":");
    lines.push(Line::Stdout(head));
    let mut i: usize = 0;
    while i < runs.len()
        invariant
            i <= runs.len(),
            lines@.len() == i + 1,
            lines@[0]@ == LineView::Stdout("Test Executions for "@ + test_id@ + ":"@),
            forall|k: int| 0 <= k < i ==> (#[trigger] lines@[k + 1])@ == execution_line(runs@[k]),
        decreases runs.len() - i,
    {
        let run = &runs[i];
        let mut text = String::from_str("  [");
        text.append(run.id.as_str());
        text.append("/");
        text.append(run.timestamp.as_str());
        text.append("] ");
        text.append(run.test_id.as_str());
        text.append(" - Status: ");
        text.append(run.status.as_str());
        match &run.error {
            Some(e) => {
                let mut note = String::from_str(" (Error: ");
                note.append(e.as_str());
                note.append(")");
                text.append(note.as_str());
            },
            None => {},
        }
        lines.push(Line::Stdout(text));
        i = i + 1;
    }
    proof {
        let wanted = execution_listing(test_id@, runs@);
        assert forall|k: int| 0 <= k < wanted.len() implies lines.deep_view()[k] == wanted[k] by {
            if k > 0 {
                assert(lines@[(k - 1) + 1]@ == execution_line(runs@[k - 1]));
            }
        }
    }
    lines
}

/// Shows the content of a file, or that none came.
pub fn show_content(content: &Option<String>) -> (r: Vec<Line>)
    ensures
        r.deep_view() == content_lines(content.deep_view()),
{
    let mut lines: Vec<Line> = Vec::new();
    match content {
        Some(text) => {
            lines.push(Line::Stdout(text.clone()));
        },
        None => {
            lines.push(Line::Stderr(String::from_str("No content returned or invalid format")));
        },
    }
    lines
}

/// Says that the assistant's setup cannot be changed yet.
pub fn modify_ai(entity: EntityType, repo: &str, config: &str) -> (r: Vec<Line>)
    ensures
        r.deep_view() == modify_ai_lines(entity, repo@, config@),
{
    let mut first = String::from_str("ModifyAI command for ");
    let kind = entity.to_string();
    first.append(kind.as_str());
    first.append(" in repo ");
    first.append(repo);
    first.append(" not yet implemented");
    let mut second = String::from_str("Config: ");
    second.append(config);
    let mut lines: Vec<Line> = Vec::new();
    lines.push(Line::Stdout(first));
    lines.push(Line::Stdout(second));
    lines
}

/// Says that the assistant cannot be started yet.
pub fn start_ai(entity: EntityType, repo: &str) -> (r: Vec<Line>)
    ensures
        r.deep_view() == start_ai_lines(entity, repo@),
{
    let mut first = String::from_str("StartAI command for ");
    let kind = entity.to_string();
    first.append(kind.as_str());
    first.append(" in repo ");
    first.append(repo);
    first.append(" not yet implemented");
    let mut lines: Vec<Line> = Vec::new();
    lines.push(Line::Stdout(first));
    lines
}

impl Line {
    /// The line said when a step has been added to a test.
    pub fn step_added() -> (r: Line)
        ensures
            r@ == step_added_line(),
    {
        Line::Stdout(String::from_str("✓ Test step added successfully"))
    }

    /// The line said when a test has been marked as started.
    pub fn test_started() -> (r: Line)
        ensures
            r@ == test_started_line(),
    {
        Line::Stdout(String::from_str("✓ Test started successfully"))
    }

    /// The line said when the end of a test has been recorded.
    pub fn test_finished(status: &str) -> (r: Line)
        ensures
            r@ == test_finished_line(status@),
    {
        let mut text = String::from_str("✓ Test finished with status: ");
        text.append(status);
        Line::Stdout(text)
    }
}

} // verus!
