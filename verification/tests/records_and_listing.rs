use agelum_cli::json::{Json, Member};
use agelum_cli::listing::{
    modify_ai, show_content, show_executions, show_groups, show_repositories, show_steps,
    show_tasks, show_tests, start_ai,
};
use agelum_cli::records::{
    create_entity, delete_file, list_entities, list_repositories, move_entity, read_file,
    write_file, Call, Operation, Unsupported,
};
use agelum_cli::reporter::Line;
use agelum_cli::source::{Method, Request};
use agelum_cli::types::{
    EntityType, Repository, RepositoryResponse, Task, Test, TestExecution, TestGroup, TestStep,
};

fn out(text: &str) -> Line {
    Line::Stdout(text.to_string())
}

fn text(name: &str, value: &str) -> Member {
    Member { name: name.to_string(), value: Json::Text(value.to_string()) }
}

fn null(name: &str) -> Member {
    Member { name: name.to_string(), value: Json::Null }
}

const OTHERS: [EntityType; 4] =
    [EntityType::Epic, EntityType::Idea, EntityType::Doc, EntityType::Tool];

#[test]
fn repositories_are_asked_for_without_a_query() {
    assert_eq!(
        list_repositories("http://h"),
        Call {
            request: Request {
                method: Method::Get,
                url: "http://h/api/repositories".to_string(),
                body: None,
            },
            doing: "fetching repos",
            done: None,
        }
    );
}

#[test]
fn tasks_groups_and_tests_can_be_listed() {
    let get = |url: &str, doing: &'static str| {
        Ok(Call {
            request: Request { method: Method::Get, url: url.to_string(), body: None },
            doing,
            done: None,
        })
    };
    assert_eq!(
        list_entities("http://h", "a/b", EntityType::Task),
        get("http://h/api/tasks?repo=a%2Fb", "fetching tasks")
    );
    assert_eq!(
        list_entities("http://h", "a/b", EntityType::TestGroup),
        get("http://h/api/test-groups?repo=a%2Fb", "fetching test groups")
    );
    assert_eq!(
        list_entities("http://h", "a/b", EntityType::Test),
        get("http://h/api/tests?repo=a%2Fb", "fetching tests")
    );
    for entity in OTHERS {
        assert_eq!(
            list_entities("http://h", "r", entity),
            Err(Unsupported { operation: Operation::List, entity })
        );
    }
}

#[test]
fn unsupported_commands_say_so() {
    assert_eq!(
        Unsupported { operation: Operation::List, entity: EntityType::Epic }.message(),
        "List command for epic not yet implemented"
    );
    assert_eq!(
        Unsupported { operation: Operation::Create, entity: EntityType::Doc }.message(),
        "Create command for doc not yet implemented"
    );
    assert_eq!(
        Unsupported { operation: Operation::Move, entity: EntityType::TestGroup }.message(),
        "Move command for testgroup not yet implemented"
    );
    assert_eq!(
        Unsupported { operation: Operation::Read, entity: EntityType::Task }.message(),
        "Read command for task not yet implemented"
    );
    assert_eq!(
        Unsupported { operation: Operation::Write, entity: EntityType::Tool }.message(),
        "Write command for tool not yet implemented"
    );
    assert_eq!(
        Unsupported { operation: Operation::Delete, entity: EntityType::Test }.message(),
        "Delete command for test not yet implemented"
    );
}

#[test]
fn a_task_is_created_as_pending_unless_a_state_is_given() {
    let wanted = |description: Member, state: &str| {
        Ok(Call {
            request: Request {
                method: Method::Post,
                url: "http://h/api/tasks".to_string(),
                body: Some(Json::Object(vec![
                    text("repo", "my repo"),
                    text("action", "create"),
                    Member {
                        name: "data".to_string(),
                        value: Json::Object(vec![text("title", "T"), description, text("state", state)]),
                    },
                ])),
            },
            doing: "creating task",
            done: Some("Task created successfully"),
        })
    };
    assert_eq!(
        create_entity("http://h", "my repo", EntityType::Task, "T", &None, &None),
        wanted(null("description"), "pending")
    );
    assert_eq!(
        create_entity(
            "http://h",
            "my repo",
            EntityType::Task,
            "T",
            &Some("D".to_string()),
            &Some("doing".to_string())
        ),
        wanted(text("description", "D"), "doing")
    );
}

#[test]
fn groups_and_tests_are_created_under_the_repository() {
    assert_eq!(
        create_entity("http://h", "my repo", EntityType::TestGroup, "G", &Some("D".to_string()), &None),
        Ok(Call {
            request: Request {
                method: Method::Post,
                url: "http://h/api/test-groups?repo=my%20repo".to_string(),
                body: Some(Json::Object(vec![text("name", "G"), text("description", "D")])),
            },
            doing: "creating test group",
            done: Some("✓ Test group created successfully"),
        })
    );
    assert_eq!(
        create_entity("http://h", "my repo", EntityType::Test, "N", &None, &Some("smoke".to_string())),
        Ok(Call {
            request: Request {
                method: Method::Post,
                url: "http://h/api/tests?repo=my%20repo".to_string(),
                body: Some(Json::Object(vec![
                    text("name", "N"),
                    null("description"),
                    text("group", "smoke"),
                ])),
            },
            doing: "creating test",
            done: Some("✓ Test created successfully"),
        })
    );
    for entity in OTHERS {
        assert_eq!(
            create_entity("http://h", "r", entity, "t", &None, &None),
            Err(Unsupported { operation: Operation::Create, entity })
        );
    }
}

#[test]
fn only_tasks_can_be_moved() {
    assert_eq!(
        move_entity("http://h", "r", EntityType::Task, "t-1", "pending", "done"),
        Ok(Call {
            request: Request {
                method: Method::Post,
                url: "http://h/api/tasks".to_string(),
                body: Some(Json::Object(vec![
                    text("repo", "r"),
                    text("action", "move"),
                    text("taskId", "t-1"),
                    text("fromState", "pending"),
                    text("toState", "done"),
                ])),
            },
            doing: "moving task",
            done: Some("Task moved successfully"),
        })
    );
    assert_eq!(
        move_entity("http://h", "r", EntityType::Test, "t-1", "a", "b"),
        Err(Unsupported { operation: Operation::Move, entity: EntityType::Test })
    );
}

#[test]
fn only_documents_can_be_read_written_and_deleted() {
    assert_eq!(
        read_file("http://h", EntityType::Doc, "docs/a b.md"),
        Ok(Call {
            request: Request {
                method: Method::Get,
                url: "http://h/api/file?path=docs%2Fa%20b.md".to_string(),
                body: None,
            },
            doing: "reading file",
            done: None,
        })
    );
    assert_eq!(
        write_file("http://h", EntityType::Doc, "docs/a.md", "# Title\n"),
        Ok(Call {
            request: Request {
                method: Method::Post,
                url: "http://h/api/file".to_string(),
                body: Some(Json::Object(vec![text("path", "docs/a.md"), text("content", "# Title\n")])),
            },
            doing: "writing file",
            done: Some("File written successfully"),
        })
    );
    assert_eq!(
        delete_file("http://h", EntityType::Doc, "docs/a.md"),
        Ok(Call {
            request: Request {
                method: Method::Delete,
                url: "http://h/api/file?path=docs%2Fa.md".to_string(),
                body: None,
            },
            doing: "deleting file",
            done: Some("File deleted successfully"),
        })
    );
    for entity in [EntityType::Epic, EntityType::Task, EntityType::Test] {
        assert_eq!(
            read_file("http://h", entity, "p"),
            Err(Unsupported { operation: Operation::Read, entity })
        );
        assert_eq!(
            write_file("http://h", entity, "p", "c"),
            Err(Unsupported { operation: Operation::Write, entity })
        );
        assert_eq!(
            delete_file("http://h", entity, "p"),
            Err(Unsupported { operation: Operation::Delete, entity })
        );
    }
}

#[test]
fn repositories_are_shown_after_the_error_that_came_with_them() {
    let answer = RepositoryResponse {
        repositories: vec![
            Repository { name: "one".to_string(), path: "/srv/one".to_string() },
            Repository { name: "two".to_string(), path: "/srv/two".to_string() },
        ],
        base_path: "/srv".to_string(),
        server_mode: false,
        error: Some("partial".to_string()),
    };
    assert_eq!(
        show_repositories(&answer),
        vec![
            Line::Stderr("API Error: partial".to_string()),
            out("- one (/srv/one)"),
            out("- two (/srv/two)"),
        ]
    );
    let empty = RepositoryResponse {
        repositories: Vec::new(),
        base_path: String::new(),
        server_mode: true,
        error: None,
    };
    assert_eq!(show_repositories(&empty), Vec::new());
}

#[test]
fn tasks_are_shown_one_per_line() {
    let tasks = vec![
        Task {
            id: "1".to_string(),
            title: "Write".to_string(),
            state: "pending".to_string(),
            epic: None,
        },
        Task {
            id: "2".to_string(),
            title: "Read".to_string(),
            state: "done".to_string(),
            epic: Some("e".to_string()),
        },
    ];
    assert_eq!(
        show_tasks(&tasks),
        vec![out("- [1] Write (State: pending)"), out("- [2] Read (State: done)")]
    );
    assert_eq!(show_tasks(&Vec::new()), Vec::new());
}

#[test]
fn groups_and_tests_are_shown_with_their_descriptions() {
    let groups = vec![
        TestGroup { id: "g1".to_string(), name: "Smoke".to_string(), description: None },
        TestGroup {
            id: "g2".to_string(),
            name: "Full".to_string(),
            description: Some("everything".to_string()),
        },
    ];
    assert_eq!(
        show_groups(&groups),
        vec![out("- [g1] Smoke"), out("- [g2] Full"), out("  Description: everything")]
    );
    let tests = vec![
        Test {
            id: "t1".to_string(),
            name: "Login".to_string(),
            group: Some("Smoke".to_string()),
            description: Some("signs in".to_string()),
        },
        Test { id: "t2".to_string(), name: "Logout".to_string(), group: None, description: None },
    ];
    assert_eq!(
        show_tests(&tests),
        vec![out("- [t1] Login [Group: Smoke]"), out("  Description: signs in"), out("- [t2] Logout")]
    );
    assert_eq!(show_groups(&Vec::new()), Vec::new());
    assert_eq!(show_tests(&Vec::new()), Vec::new());
}

#[test]
fn steps_are_listed_as_the_service_gave_them() {
    let steps = vec![
        TestStep {
            id: "b".to_string(),
            command: "click".to_string(),
            args: vec!["#btn".to_string(), "twice".to_string()],
            order: 2,
        },
        TestStep { id: "a".to_string(), command: "open".to_string(), args: Vec::new(), order: 1 },
    ];
    assert_eq!(
        show_steps("t1", &steps),
        vec![out("Test Steps for t1:"), out("  2) click #btn twice"), out("  1) open ")]
    );
    assert_eq!(show_steps("t1", &Vec::new()), vec![out("No steps found for test t1")]);
}

#[test]
fn executions_are_listed_as_the_service_gave_them() {
    let runs = vec![
        TestExecution {
            id: "x2".to_string(),
            test_id: "t1".to_string(),
            timestamp: "2024-02-02T10:00:00Z".to_string(),
            status: "failed".to_string(),
            error: Some("timeout".to_string()),
        },
        TestExecution {
            id: "x1".to_string(),
            test_id: "t1".to_string(),
            timestamp: "2024-02-01T10:00:00Z".to_string(),
            status: "passed".to_string(),
            error: None,
        },
    ];
    assert_eq!(
        show_executions("t1", &runs),
        vec![
            out("Test Executions for t1:"),
            out("  [x2/2024-02-02T10:00:00Z] t1 - Status: failed (Error: timeout)"),
            out("  [x1/2024-02-01T10:00:00Z] t1 - Status: passed"),
        ]
    );
    assert_eq!(show_executions("t1", &Vec::new()), vec![out("No executions found for test t1")]);
}

#[test]
fn file_content_is_shown_or_missed() {
    assert_eq!(show_content(&Some("hello\n".to_string())), vec![out("hello\n")]);
    assert_eq!(
        show_content(&None),
        vec![Line::Stderr("No content returned or invalid format".to_string())]
    );
}

#[test]
fn assistant_commands_are_not_there_yet() {
    assert_eq!(
        modify_ai(EntityType::Task, "demo", "{}"),
        vec![out("ModifyAI command for task in repo demo not yet implemented"), out("Config: {}")]
    );
    assert_eq!(
        start_ai(EntityType::TestGroup, "demo"),
        vec![out("StartAI command for testgroup in repo demo not yet implemented")]
    );
}

#[test]
fn lines_of_the_commands_on_tests() {
    assert_eq!(Line::step_added(), out("✓ Test step added successfully"));
    assert_eq!(Line::test_started(), out("✓ Test started successfully"));
    assert_eq!(Line::test_finished("passed"), out("✓ Test finished with status: passed"));
}
