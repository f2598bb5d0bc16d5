//! The records that the remote service keeps, and the kinds of entity that
//! commands are about.

use vstd::prelude::*;
use vstd::string::StringExecFns;

verus! {

/// The kinds of entity a command can be about.
#[derive(Debug, Clone, Copy, PartialEq, Eq, Structural)]
pub enum EntityType {
    Epic,
    Task,
    Idea,
    Doc,
    Tool,
    TestGroup,
    Test,
}

/// What `str::to_lowercase` makes of a text.
pub uninterp spec fn lowercased(text: Seq<char>) -> Seq<char>;

/// Calls `str::to_lowercase`. Trusted: the result depends on the characters
/// of `text` alone.
#[verifier::external_body]
fn to_lowercase(text: &str) -> (r: String)
    ensures
        r@ == lowercased(text@),
{
    text.to_lowercase()
}

impl EntityType {
    /// The lower-case name of the kind.
    pub open spec fn name(self) -> Seq<char> {
        match self {
            EntityType::Epic => "epic"@,
            EntityType::Task => "task"@,
            EntityType::Idea => "idea"@,
            EntityType::Doc => "doc"@,
            EntityType::Tool => "tool"@,
            EntityType::TestGroup => "testgroup"@,
            EntityType::Test => "test"@,
        }
    }

    /// The kind with the lower-case name `lower`, if there is one.
    pub open spec fn named(lower: Seq<char>) -> Option<EntityType> {
        if lower == "epic"@ {
            Some(EntityType::Epic)
        } else if lower == "task"@ {
            Some(EntityType::Task)
        } else if lower == "idea"@ {
            Some(EntityType::Idea)
        } else if lower == "doc"@ {
            Some(EntityType::Doc)
        } else if lower == "tool"@ {
            Some(EntityType::Tool)
        } else if lower == "testgroup"@ {
            Some(EntityType::TestGroup)
        } else if lower == "test"@ {
            Some(EntityType::Test)
        } else {
            None
        }
    }

    /// What parsing `text` gives: the kind named by the lower-cased text, or
    /// the message that names the text as it was given.
    pub open spec fn parsed(text: Seq<char>, lower: Seq<char>) -> Result<EntityType, Seq<char>> {
        match Self::named(lower) {
            Some(kind) => Ok(kind),
            None => Err("Invalid entity type: "@ + text),
        }
    }

    /// The kind that an already lower-cased name stands for.
    pub fn from_lowercase(lower: &str) -> (r: Option<EntityType>)
        ensures
            r == Self::named(lower@),
    {
        if crate::text::same_text(lower, "epic") {
            Some(EntityType::Epic)
        } else if crate::text::same_text(lower, "task") {
            Some(EntityType::Task)
        } else if crate::text::same_text(lower, "idea") {
            Some(EntityType::Idea)
        } else if crate::text::same_text(lower, "doc") {
            Some(EntityType::Doc)
        } else if crate::text::same_text(lower, "tool") {
            Some(EntityType::Tool)
        } else if crate::text::same_text(lower, "testgroup") {
            Some(EntityType::TestGroup)
        } else if crate::text::same_text(lower, "test") {
            Some(EntityType::Test)
        } else {
            None
        }
    }

    /// Decides what a text and its lower-cased form parse to.
    pub fn resolve(text: &str, lower: &str) -> (r: Result<EntityType, String>)
        ensures
            match Self::parsed(text@, lower@) {
                Ok(kind) => r == Ok::<EntityType, String>(kind),
                Err(message) => r matches Err(m) && m@ == message,
            },
    {
        match Self::from_lowercase(lower) {
            Some(kind) => Ok(kind),
            None => {
                let mut message = String::from_str("Invalid entity type: ");
                message.append(text);
                Err(message)
            },
        }
    }

    /// Parses the name of a kind, in any mix of upper and lower case.
    pub fn from_str(s: &str) -> (r: Result<EntityType, String>)
        ensures
            match Self::parsed(s@, lowercased(s@)) {
                Ok(kind) => r == Ok::<EntityType, String>(kind),
                Err(message) => r matches Err(m) && m@ == message,
            },
    {
        let lower = to_lowercase(s);
        Self::resolve(s, lower.as_str())
    }

    /// The lower-case name of the kind, as text.
    pub fn to_string(&self) -> (r: String)
        ensures
            r@ == self.name(),
    {
        match self {
            EntityType::Epic => String::from_str("epic"),
            EntityType::Task => String::from_str("task"),
            EntityType::Idea => String::from_str("idea"),
            EntityType::Doc => String::from_str("doc"),
            EntityType::Tool => String::from_str("tool"),
            EntityType::TestGroup => String::from_str("testgroup"),
            EntityType::Test => String::from_str("test"),
        }
    }

    /// Every kind is found again under its own name.
    pub proof fn law_name_round_trip(kind: EntityType)
        ensures
            Self::named(kind.name()) == Some(kind),
    {
        reveal_strlit("epic");
        reveal_strlit("task");
        reveal_strlit("idea");
        reveal_strlit("doc");
        reveal_strlit("tool");
        reveal_strlit("testgroup");
        reveal_strlit("test");
        assert("task"@.len() == 4 && "task"@[0] == 't' && "task"@[1] == 'a');
        assert("idea"@.len() == 4 && "idea"@[0] == 'i');
        assert("doc"@.len() == 3);
        assert("tool"@.len() == 4 && "tool"@[0] == 't' && "tool"@[1] == 'o');
        assert("testgroup"@.len() == 9);
        assert("test"@.len() == 4 && "test"@[0] == 't' && "test"@[1] == 'e');
    }
}

impl std::str::FromStr for EntityType {
    type Err = String;

    fn from_str(s: &str) -> (r: Result<EntityType, String>)
        ensures
            match EntityType::parsed(s@, lowercased(s@)) {
                Ok(kind) => r == Ok::<EntityType, String>(kind),
                Err(message) => r matches Err(m) && m@ == message,
            },
    {
        EntityType::from_str(s)
    }
}

/// A repository known to the service.
#[derive(Debug, Clone, PartialEq, Eq)]
pub struct Repository {
    pub name: String,
    pub path: String,
}

/// The answer to a request for the repositories.
#[derive(Debug, Clone, PartialEq, Eq)]
pub struct RepositoryResponse {
    pub repositories: Vec<Repository>,
    pub base_path: String,
    pub server_mode: bool,
    pub error: Option<String>,
}

/// A task.
#[derive(Debug, Clone, PartialEq, Eq)]
pub struct Task {
    pub id: String,
    pub title: String,
    pub state: String,
    pub epic: Option<String>,
}

/// The answer to a request for the tasks of a repository.
#[derive(Debug, Clone, PartialEq, Eq)]
pub struct TaskResponse {
    pub tasks: Vec<Task>,
}

/// What is needed to create a task.
#[derive(Debug, Clone, PartialEq, Eq)]
pub struct CreateTaskRequest {
    pub title: String,
    pub description: Option<String>,
    pub state: String,
}

/// The answer to a request for a file.
#[derive(Debug, Clone, PartialEq, Eq)]
pub struct FileResponse {
    pub content: String,
}

/// A group of tests.
#[derive(Debug, Clone, PartialEq, Eq)]
pub struct TestGroup {
    pub id: String,
    pub name: String,
    pub description: Option<String>,
}

/// A test.
#[derive(Debug, Clone, PartialEq, Eq)]
pub struct Test {
    pub id: String,
    pub name: String,
    pub group: Option<String>,
    pub description: Option<String>,
}

/// One automation action of a test: a command, its arguments, and its place
/// in the sequence.
#[derive(Debug, Clone, PartialEq, Eq)]
pub struct TestStep {
    pub id: String,
    pub command: String,
    pub args: Vec<String>,
    pub order: i32,
}

/// A step as plain values.
pub struct StepView {
    pub id: Seq<char>,
    pub command: Seq<char>,
    pub args: Seq<Seq<char>>,
    pub order: int,
}

impl View for TestStep {
    type V = StepView;

    open spec fn view(&self) -> StepView {
        StepView {
            id: self.id@,
            command: self.command@,
            args: self.args.deep_view(),
            order: self.order as int,
        }
    }
}

impl DeepView for TestStep {
    type V = StepView;

    open spec fn deep_view(&self) -> StepView {
        self.view()
    }
}

/// The record of one past run of a test, as the service keeps it.
#[derive(Debug, Clone, PartialEq, Eq)]
pub struct TestExecution {
    pub id: String,
    pub test_id: String,
    pub timestamp: String,
    pub status: String,
    pub error: Option<String>,
}

/// The answer to a request for the test groups of a repository.
#[derive(Debug, Clone, PartialEq, Eq)]
pub struct TestGroupResponse {
    pub groups: Vec<TestGroup>,
}

/// The answer to a request for the tests of a repository.
#[derive(Debug, Clone, PartialEq, Eq)]
pub struct TestResponse {
    pub tests: Vec<Test>,
}

/// The answer to a request for the steps of a test.
#[derive(Debug, Clone, PartialEq, Eq)]
pub struct TestStepResponse {
    pub steps: Vec<TestStep>,
}

/// The answer to a request for the past runs of a test.
#[derive(Debug, Clone, PartialEq, Eq)]
pub struct TestExecutionResponse {
    pub executions: Vec<TestExecution>,
}

} // verus!
