//! The commands on the records of the service: repositories, tasks, test
//! groups, tests and files. For each command this module says which request
//! it makes, what it is doing in words, and what is said when it has
//! succeeded. A command that is not there for a kind of entity is refused
//! as unsupported.

use vstd::prelude::*;
use vstd::string::StringExecFns;
use vstd::utf8::encode_utf8;
use crate::encode::{percent_encode, percent_encoded};
use crate::json::{optional_text, Json, JsonView, Member};
use crate::source::{Method, Request, RequestView};
use crate::types::EntityType;

verus! {

/// What a command does with the entities of a kind.
#[derive(Debug, Clone, Copy, PartialEq, Eq, Structural)]
pub enum Operation {
    List,
    Create,
    Move,
    Read,
    Write,
    Delete,
}

/// A command that is not there for a kind of entity.
#[derive(Debug, Clone, Copy, PartialEq, Eq, Structural)]
pub struct Unsupported {
    pub operation: Operation,
    pub entity: EntityType,
}

/// A call of the service: the request, what the call is doing, in words
/// for an error report, and what is said when it has succeeded, where that
/// is always the same.
#[derive(Debug, PartialEq, Eq)]
pub struct Call {
    pub request: Request,
    pub doing: &'static str,
    pub done: Option<&'static str>,
}

/// A call as plain values.
pub struct CallView {
    pub request: RequestView,
    pub doing: Seq<char>,
    pub done: Option<Seq<char>>,
}

impl View for Call {
    type V = CallView;

    open spec fn view(&self) -> CallView {
        CallView {
            request: self.request@,
            doing: self.doing@,
            done: match self.done {
                Some(text) => Some(text@),
                None => None,
            },
        }
    }
}

/// The name of an operation as commands show it.
pub open spec fn operation_name(operation: Operation) -> Seq<char> {
    match operation {
        Operation::List => "List"@,
        Operation::Create => "Create"@,
        Operation::Move => "Move"@,
        Operation::Read => "Read"@,
        Operation::Write => "Write"@,
        Operation::Delete => "Delete"@,
    }
}

/// What is said of an unsupported command.
pub open spec fn unsupported_text(u: Unsupported) -> Seq<char> {
    operation_name(u.operation) + " command for "@ + u.entity.name() + " not yet implemented"@
}

impl Unsupported {
    /// What is said of the unsupported command.
    pub fn message(&self) -> (r: String)
        ensures
            r@ == unsupported_text(*self),
    {
        let mut text = String::from_str(
            match self.operation {
                Operation::List => "List",
                Operation::Create => "Create",
                Operation::Move => "Move",
                Operation::Read => "Read",
                Operation::Write => "Write",
                Operation::Delete => "Delete",
            },
        );
        text.append(" command for ");
        let kind = self.entity.to_string();
        text.append(kind.as_str());
        text.append(" not yet implemented");
        text
    }
}

/// Whether a call is the one wanted, or refused as wanted.
pub open spec fn agrees(got: Result<Call, Unsupported>, wanted: Result<CallView, Unsupported>) -> bool {
    match wanted {
        Ok(call) => got matches Ok(c) && c@ == call,
        Err(u) => got == Err::<Call, Unsupported>(u),
    }
}

/// `path` under `base`, with the repository's name percent-encoded as the
/// query.
pub open spec fn repo_url(base: Seq<char>, path: Seq<char>, repo: Seq<char>) -> Seq<char> {
    base + path + "?repo="@ + percent_encoded(encode_utf8(repo))
}

/// The address of a file of the service, its path percent-encoded.
pub open spec fn file_url(base: Seq<char>, path: Seq<char>) -> Seq<char> {
    base + "/api/file?path="@ + percent_encoded(encode_utf8(path))
}

/// The call that lists the repositories.
pub open spec fn repositories_call(base: Seq<char>) -> CallView {
    CallView {
        request: RequestView { method: Method::Get, url: base + "/api/repositories"@, body: None },
        doing: "fetching repos"@,
        done: None,
    }
}

/// The call that lists the entities of a kind: tasks, test groups and tests
/// can be listed.
pub open spec fn list_call(base: Seq<char>, repo: Seq<char>, entity: EntityType) -> Result<
    CallView,
    Unsupported,
> {
    match entity {
        EntityType::Task => Ok(
            CallView {
                request: RequestView {
                    method: Method::Get,
                    url: repo_url(base, "/api/tasks"@, repo),
                    body: None,
                },
                doing: "fetching tasks"@,
                done: None,
            },
        ),
        EntityType::TestGroup => Ok(
            CallView {
                request: RequestView {
                    method: Method::Get,
                    url: repo_url(base, "/api/test-groups"@, repo),
                    body: None,
                },
                doing: "fetching test groups"@,
                done: None,
            },
        ),
        EntityType::Test => Ok(
            CallView {
                request: RequestView {
                    method: Method::Get,
                    url: repo_url(base, "/api/tests"@, repo),
                    body: None,
                },
                doing: "fetching tests"@,
                done: None,
            },
        ),
        _ => Err(Unsupported { operation: Operation::List, entity }),
    }
}

/// The state of a new task where none is given.
pub open spec fn state_or_pending(state: Option<Seq<char>>) -> Seq<char> {
    match state {
        Some(s) => s,
        None => "pending"@,
    }
}

/// The call that creates an entity of a kind: tasks, test groups and tests
/// can be created. For a test, `state` names its group.
pub open spec fn create_call(
    base: Seq<char>,
    repo: Seq<char>,
    entity: EntityType,
    title: Seq<char>,
    description: Option<Seq<char>>,
    state: Option<Seq<char>>,
) -> Result<CallView, Unsupported> {
    match entity {
        EntityType::Task => Ok(
            CallView {
                request: RequestView {
                    method: Method::Post,
                    url: base + "/api/tasks"@,
                    body: Some(
                        JsonView::Object(
                            seq![
                                ("repo"@, JsonView::Text(repo)),
                                ("action"@, JsonView::Text("create"@)),
                                (
                                    "data"@,
                                    JsonView::Object(
                                        seq![
                                            ("title"@, JsonView::Text(title)),
                                            ("description"@, optional_text(description)),
                                            ("state"@, JsonView::Text(state_or_pending(state))),
                                        ],
                                    ),
                                ),
                            ],
                        ),
                    ),
                },
                doing: "creating task"@,
                done: Some("Task created successfully"@),
            },
        ),
        EntityType::TestGroup => Ok(
            CallView {
                request: RequestView {
                    method: Method::Post,
                    url: repo_url(base, "/api/test-groups"@, repo),
                    body: Some(
                        JsonView::Object(
                            seq![
                                ("name"@, JsonView::Text(title)),
                                ("description"@, optional_text(description)),
                            ],
                        ),
                    ),
                },
                doing: "creating test group"@,
                done: Some("✓ Test group created successfully"@),
            },
        ),
        EntityType::Test => Ok(
            CallView {
                request: RequestView {
                    method: Method::Post,
                    url: repo_url(base, "/api/tests"@, repo),
                    body: Some(
                        JsonView::Object(
                            seq![
                                ("name"@, JsonView::Text(title)),
                                ("description"@, optional_text(description)),
                                ("group"@, optional_text(state)),
                            ],
                        ),
                    ),
                },
                doing: "creating test"@,
                done: Some("✓ Test created successfully"@),
            },
        ),
        _ => Err(Unsupported { operation: Operation::Create, entity }),
    }
}

/// The call that moves an entity from one state to another: tasks can be
/// moved.
pub open spec fn move_call(
    base: Seq<char>,
    repo: Seq<char>,
    entity: EntityType,
    entity_id: Seq<char>,
    from_state: Seq<char>,
    to_state: Seq<char>,
) -> Result<CallView, Unsupported> {
    match entity {
        EntityType::Task => Ok(
            CallView {
                request: RequestView {
                    method: Method::Post,
                    url: base + "/api/tasks"@,
                    body: Some(
                        JsonView::Object(
                            seq![
                                ("repo"@, JsonView::Text(repo)),
                                ("action"@, JsonView::Text("move"@)),
                                ("taskId"@, JsonView::Text(entity_id)),
                                ("fromState"@, JsonView::Text(from_state)),
                                ("toState"@, JsonView::Text(to_state)),
                            ],
                        ),
                    ),
                },
                doing: "moving task"@,
                done: Some("Task moved successfully"@),
            },
        ),
        _ => Err(Unsupported { operation: Operation::Move, entity }),
    }
}

/// The call that reads a file: documents can be read.
pub open spec fn read_call(base: Seq<char>, entity: EntityType, path: Seq<char>) -> Result<
    CallView,
    Unsupported,
> {
    match entity {
        EntityType::Doc => Ok(
            CallView {
                request: RequestView { method: Method::Get, url: file_url(base, path), body: None },
                doing: "reading file"@,
                done: None,
            },
        ),
        _ => Err(Unsupported { operation: Operation::Read, entity }),
    }
}

/// The call that writes a file: documents can be written.
pub open spec fn write_call(
    base: Seq<char>,
    entity: EntityType,
    path: Seq<char>,
    content: Seq<char>,
) -> Result<CallView, Unsupported> {
    match entity {
        EntityType::Doc => Ok(
            CallView {
                request: RequestView {
                    method: Method::Post,
                    url: base + "/api/file"@,
                    body: Some(
                        JsonView::Object(
                            seq![
                                ("path"@, JsonView::Text(path)),
                                ("content"@, JsonView::Text(content)),
                            ],
                        ),
                    ),
                },
                doing: "writing file"@,
                done: Some("File written successfully"@),
            },
        ),
        _ => Err(Unsupported { operation: Operation::Write, entity }),
    }
}

/// The call that deletes a file: documents can be deleted.
pub open spec fn delete_call(base: Seq<char>, entity: EntityType, path: Seq<char>) -> Result<
    CallView,
    Unsupported,
> {
    match entity {
        EntityType::Doc => Ok(
            CallView {
                request: RequestView {
                    method: Method::Delete,
                    url: file_url(base, path),
                    body: None,
                },
                doing: "deleting file"@,
                done: Some("File deleted successfully"@),
            },
        ),
        _ => Err(Unsupported { operation: Operation::Delete, entity }),
    }
}

fn repo_url_text(base: &str, path: &str, repo: &str) -> (r: String)
    ensures
        r@ == repo_url(base@, path@, repo@),
{
    let mut url = String::from_str(base);
    url.append(path);
    url.append("?repo=");
    let encoded = percent_encode(repo);
    url.append(encoded.as_str());
    url
}

fn file_url_text(base: &str, path: &str) -> (r: String)
    ensures
        r@ == file_url(base@, path@),
{
    let mut url = String::from_str(base);
    url.append("/api/file?path=");
    let encoded = percent_encode(path);
    url.append(encoded.as_str());
    url
}

fn under(base: &str, path: &str) -> (r: String)
    ensures
        r@ == base@ + path@,
{
    let mut url = String::from_str(base);
    url.append(path);
    url
}

/// The call that lists the repositories.
pub fn list_repositories(base: &str) -> (r: Call)
    ensures
        r@ == repositories_call(base@),
{
    Call {
        request: Request { method: Method::Get, url: under(base, "/api/repositories"), body: None },
        doing: "fetching repos",
        done: None,
    }
}

/// The call that lists the entities of a kind.
pub fn list_entities(base: &str, repo: &str, entity: EntityType) -> (r: Result<Call, Unsupported>)
    ensures
        agrees(r, list_call(base@, repo@, entity)),
{
    match entity {
        EntityType::Task => Ok(
            Call {
                request: Request {
                    method: Method::Get,
                    url: repo_url_text(base, "/api/tasks", repo),
                    body: None,
                },
                doing: "fetching tasks",
                done: None,
            },
        ),
        EntityType::TestGroup => Ok(
            Call {
                request: Request {
                    method: Method::Get,
                    url: repo_url_text(base, "/api/test-groups", repo),
                    body: None,
                },
                doing: "fetching test groups",
                done: None,
            },
        ),
        EntityType::Test => Ok(
            Call {
                request: Request {
                    method: Method::Get,
                    url: repo_url_text(base, "/api/tests", repo),
                    body: None,
                },
                doing: "fetching tests",
                done: None,
            },
        ),
        _ => Err(Unsupported { operation: Operation::List, entity }),
    }
}

/// The call that creates an entity of a kind.
pub fn create_entity(
    base: &str,
    repo: &str,
    entity: EntityType,
    title: &str,
    description: &Option<String>,
    state: &Option<String>,
) -> (r: Result<Call, Unsupported>)
    ensures
        agrees(
            r,
            create_call(base@, repo@, entity, title@, description.deep_view(), state.deep_view()),
        ),
{
    match entity {
        EntityType::Task => {
            let state_value = match state {
                Some(s) => Json::Text(s.clone()),
                None => Json::text("pending"),
            };
            let mut data: Vec<Member> = Vec::new();
            data.push(Member::new("title", Json::text(title)));
            data.push(Member::new("description", Json::optional(description)));
            data.push(Member::new("state", state_value));
            let data = Json::object(data);
            assert(data@->Object_0 =~= seq![
                ("title"@, JsonView::Text(title@)),
                ("description"@, optional_text(description.deep_view())),
                ("state"@, JsonView::Text(state_or_pending(state.deep_view()))),
            ]);
            let mut members: Vec<Member> = Vec::new();
            members.push(Member::new("repo", Json::text(repo)));
            members.push(Member::new("action", Json::text("create")));
            members.push(Member::new("data", data));
            let body = Json::object(members);
            assert(body@->Object_0 =~= seq![
                ("repo"@, JsonView::Text(repo@)),
                ("action"@, JsonView::Text("create"@)),
                ("data"@, data@),
            ]);
            Ok(
                Call {
                    request: Request {
                        method: Method::Post,
                        url: under(base, "/api/tasks"),
                        body: Some(body),
                    },
                    doing: "creating task",
                    done: Some("Task created successfully"),
                },
            )
        },
        EntityType::TestGroup => {
            let mut members: Vec<Member> = Vec::new();
            members.push(Member::new("name", Json::text(title)));
            members.push(Member::new("description", Json::optional(description)));
            let body = Json::object(members);
            assert(body@->Object_0 =~= seq![
                ("name"@, JsonView::Text(title@)),
                ("description"@, optional_text(description.deep_view())),
            ]);
            Ok(
                Call {
                    request: Request {
                        method: Method::Post,
                        url: repo_url_text(base, "/api/test-groups", repo),
                        body: Some(body),
                    },
                    doing: "creating test group",
                    done: Some("✓ Test group created successfully"),
                },
            )
        },
        EntityType::Test => {
            let mut members: Vec<Member> = Vec::new();
            members.push(Member::new("name", Json::text(title)));
            members.push(Member::new("description", Json::optional(description)));
            members.push(Member::new("group", Json::optional(state)));
            let body = Json::object(members);
            assert(body@->Object_0 =~= seq![
                ("name"@, JsonView::Text(title@)),
                ("description"@, optional_text(description.deep_view())),
                ("group"@, optional_text(state.deep_view())),
            ]);
            Ok(
                Call {
                    request: Request {
                        method: Method::Post,
                        url: repo_url_text(base, "/api/tests", repo),
                        body: Some(body),
                    },
                    doing: "creating test",
                    done: Some("✓ Test created successfully"),
                },
            )
        },
        _ => Err(Unsupported { operation: Operation::Create, entity }),
    }
}

/// The call that moves an entity from one state to another.
pub fn move_entity(
    base: &str,
    repo: &str,
    entity: EntityType,
    entity_id: &str,
    from_state: &str,
    to_state: &str,
) -> (r: Result<Call, Unsupported>)
    ensures
        agrees(r, move_call(base@, repo@, entity, entity_id@, from_state@, to_state@)),
{
    match entity {
        EntityType::Task => {
            let mut members: Vec<Member> = Vec::new();
            members.push(Member::new("repo", Json::text(repo)));
            members.push(Member::new("action", Json::text("move")));
            members.push(Member::new("taskId", Json::text(entity_id)));
            members.push(Member::new("fromState", Json::text(from_state)));
            members.push(Member::new("toState", Json::text(to_state)));
            let body = Json::object(members);
            assert(body@->Object_0 =~= seq![
                ("repo"@, JsonView::Text(repo@)),
                ("action"@, JsonView::Text("move"@)),
                ("taskId"@, JsonView::Text(entity_id@)),
                ("fromState"@, JsonView::Text(from_state@)),
                ("toState"@, JsonView::Text(to_state@)),
            ]);
            Ok(
                Call {
                    request: Request {
                        method: Method::Post,
                        url: under(base, "/api/tasks"),
                        body: Some(body),
                    },
                    doing: "moving task",
                    done: Some("Task moved successfully"),
                },
            )
        },
        _ => Err(Unsupported { operation: Operation::Move, entity }),
    }
}

/// The call that reads a file.
pub fn read_file(base: &str, entity: EntityType, path: &str) -> (r: Result<Call, Unsupported>)
    ensures
        agrees(r, read_call(base@, entity, path@)),
{
    match entity {
        EntityType::Doc => Ok(
            Call {
                request: Request {
                    method: Method::Get,
                    url: file_url_text(base, path),
                    body: None,
                },
                doing: "reading file",
                done: None,
            },
        ),
        _ => Err(Unsupported { operation: Operation::Read, entity }),
    }
}

/// The call that writes a file.
pub fn write_file(base: &str, entity: EntityType, path: &str, content: &str) -> (r: Result<
    Call,
    Unsupported,
>)
    ensures
        agrees(r, write_call(base@, entity, path@, content@)),
{
    match entity {
        EntityType::Doc => {
            let mut members: Vec<Member> = Vec::new();
            members.push(Member::new("path", Json::text(path)));
            members.push(Member::new("content", Json::text(content)));
            let body = Json::object(members);
            assert(body@->Object_0 =~= seq![
                ("path"@, JsonView::Text(path@)),
                ("content"@, JsonView::Text(content@)),
            ]);
            Ok(
                Call {
                    request: Request {
                        method: Method::Post,
                        url: under(base, "/api/file"),
                        body: Some(body),
                    },
                    doing: "writing file",
                    done: Some("File written successfully"),
                },
            )
        },
        _ => Err(Unsupported { operation: Operation::Write, entity }),
    }
}

/// The call that deletes a file.
pub fn delete_file(base: &str, entity: EntityType, path: &str) -> (r: Result<Call, Unsupported>)
    ensures
        agrees(r, delete_call(base@, entity, path@)),
{
    match entity {
        EntityType::Doc => Ok(
            Call {
                request: Request {
                    method: Method::Delete,
                    url: file_url_text(base, path),
                    body: None,
                },
                doing: "deleting file",
                done: Some("File deleted successfully"),
            },
        ),
        _ => Err(Unsupported { operation: Operation::Delete, entity }),
    }
}

} // verus!
