use agelum_cli::browser::{browser_command, extract_repo_arg, has_flag, BrowserCommand};
use agelum_cli::executor::{classify, invocation, Invocation, ProcessExit, StepOutcome};
use agelum_cli::json::{Json, Member};
use agelum_cli::plan::{arrange, shares_order};
use agelum_cli::reporter::{finish_report, remote_error_report, Line};
use agelum_cli::source::{is_success, FinishOutcome, Method, RemoteError, Request, StepSource};
use agelum_cli::summary::{FinalStatus, RunSummary};
use agelum_cli::text::{int_text, join, nat_text, same_text};
use agelum_cli::types::{EntityType, TestStep};

fn step(id: &str, order: i32, command: &str, args: &[&str]) -> TestStep {
    TestStep {
        id: id.to_string(),
        command: command.to_string(),
        args: args.iter().map(|a| a.to_string()).collect(),
        order,
    }
}

fn strings(items: &[&str]) -> Vec<String> {
    items.iter().map(|a| a.to_string()).collect()
}

#[test]
fn natural_numbers_in_decimal() {
    assert_eq!(nat_text(0), "0");
    assert_eq!(nat_text(7), "7");
    assert_eq!(nat_text(10), "10");
    assert_eq!(nat_text(1234567890), "1234567890");
    assert_eq!(nat_text(u64::MAX), "18446744073709551615");
}

#[test]
fn integers_in_decimal() {
    assert_eq!(int_text(0), "0");
    assert_eq!(int_text(-1), "-1");
    assert_eq!(int_text(-42), "-42");
    assert_eq!(int_text(305), "305");
    assert_eq!(int_text(i64::MAX), "9223372036854775807");
    assert_eq!(int_text(i64::MIN), "-9223372036854775808");
}

#[test]
fn join_puts_the_separator_between_neighbours() {
    assert_eq!(join(&Vec::new(), " "), "");
    assert_eq!(join(&strings(&["a"]), " "), "a");
    assert_eq!(join(&strings(&["a", "b", "c"]), ", "), "a, b, c");
    assert_eq!(join(&strings(&["", ""]), "-"), "-");
}

#[test]
fn same_text_compares_characters() {
    assert!(same_text("--repo", "--repo"));
    assert!(!same_text("--repo", "--rep"));
    assert!(!same_text("--repo", "--repO"));
    assert!(same_text("", ""));
    assert!(same_text("ü▶", "ü▶"));
}

#[test]
fn entity_types_parse_in_any_case() {
    assert_eq!(EntityType::from_str("epic"), Ok(EntityType::Epic));
    assert_eq!(EntityType::from_str("TASK"), Ok(EntityType::Task));
    assert_eq!(EntityType::from_str("Idea"), Ok(EntityType::Idea));
    assert_eq!(EntityType::from_str("doc"), Ok(EntityType::Doc));
    assert_eq!(EntityType::from_str("tool"), Ok(EntityType::Tool));
    assert_eq!(EntityType::from_str("TestGroup"), Ok(EntityType::TestGroup));
    assert_eq!(EntityType::from_str("test"), Ok(EntityType::Test));
    assert_eq!("Task".parse::<EntityType>(), Ok(EntityType::Task));
}

#[test]
fn unknown_entity_type_is_named_in_the_error() {
    assert_eq!(EntityType::from_str("Story"), Err("Invalid entity type: Story".to_string()));
    assert_eq!(EntityType::from_str(""), Err("Invalid entity type: ".to_string()));
    assert_eq!(EntityType::from_str("tests"), Err("Invalid entity type: tests".to_string()));
}

#[test]
fn entity_type_lowercased_name_decides() {
    assert_eq!(EntityType::from_lowercase("task"), Some(EntityType::Task));
    assert_eq!(EntityType::from_lowercase("TASK"), None);
    assert_eq!(EntityType::resolve("TASK", "task"), Ok(EntityType::Task));
    assert_eq!(EntityType::resolve("Nope", "nope"), Err("Invalid entity type: Nope".to_string()));
}

#[test]
fn entity_types_print_their_lower_case_name() {
    assert_eq!(EntityType::Epic.to_string(), "epic");
    assert_eq!(EntityType::Task.to_string(), "task");
    assert_eq!(EntityType::Idea.to_string(), "idea");
    assert_eq!(EntityType::Doc.to_string(), "doc");
    assert_eq!(EntityType::Tool.to_string(), "tool");
    assert_eq!(EntityType::TestGroup.to_string(), "testgroup");
    assert_eq!(EntityType::Test.to_string(), "test");
    for kind in [
        EntityType::Epic,
        EntityType::Task,
        EntityType::Idea,
        EntityType::Doc,
        EntityType::Tool,
        EntityType::TestGroup,
        EntityType::Test,
    ] {
        assert_eq!(EntityType::from_str(&kind.to_string()), Ok(kind));
    }
}

#[test]
fn arrange_sorts_by_order_and_keeps_ties() {
    let steps = vec![
        step("d", 5, "d", &[]),
        step("a", -1, "a", &[]),
        step("b", 2, "b", &[]),
        step("c", 2, "c", &[]),
        step("e", -1, "e", &[]),
    ];
    let plan = arrange(steps);
    let ids: Vec<&str> = plan.iter().map(|s| s.id.as_str()).collect();
    assert_eq!(ids, vec!["a", "e", "b", "c", "d"]);
}

#[test]
fn arrange_leaves_ordered_steps_alone() {
    let steps = vec![step("a", 1, "a", &["x"]), step("b", 2, "b", &[]), step("c", 3, "c", &[])];
    assert_eq!(arrange(steps.clone()), steps);
    assert_eq!(arrange(Vec::new()), Vec::new());
}

#[test]
fn shared_orders_are_found() {
    assert!(!shares_order(&Vec::new()));
    assert!(!shares_order(&vec![step("a", 1, "a", &[])]));
    assert!(!shares_order(&vec![step("a", 1, "a", &[]), step("b", 2, "b", &[])]));
    assert!(shares_order(&vec![
        step("a", 1, "a", &[]),
        step("b", 2, "b", &[]),
        step("c", 1, "c", &[]),
    ]));
}

#[test]
fn invocation_is_command_then_arguments() {
    let s = step("s", 1, "fill", &["#name", "two words", "", "--flag"]);
    assert_eq!(
        invocation(&s),
        Invocation {
            program: "agent-browser".to_string(),
            args: strings(&["fill", "#name", "two words", "", "--flag"]),
        }
    );
    assert_eq!(
        invocation(&step("s", 1, "back", &[])),
        Invocation { program: "agent-browser".to_string(), args: strings(&["back"]) }
    );
}

#[test]
fn classify_tells_the_three_outcomes_apart() {
    let s = step("s9", 4, "open", &[]);
    let ok = classify(&s, &ProcessExit::Exited { code: Some(0) });
    assert_eq!(
        ok,
        StepOutcome {
            step_id: "s9".to_string(),
            launched: true,
            exit_success: true,
            diagnostic: None,
        }
    );
    assert!(!ok.failed());
    let bad = classify(&s, &ProcessExit::Exited { code: Some(-7) });
    assert_eq!(
        bad,
        StepOutcome {
            step_id: "s9".to_string(),
            launched: true,
            exit_success: false,
            diagnostic: Some(
                "agent-browser command failed with status: exit status: -7".to_string()
            ),
        }
    );
    assert!(bad.failed());
    let missing = classify(&s, &ProcessExit::LaunchFailed { reason: "not found".to_string() });
    assert_eq!(
        missing,
        StepOutcome {
            step_id: "s9".to_string(),
            launched: false,
            exit_success: false,
            diagnostic: Some("agent-browser could not be launched: not found".to_string()),
        }
    );
    assert!(missing.failed());
    let killed = ProcessExit::Exited { code: None };
    assert!(!killed.success());
    assert_eq!(
        killed.diagnostic(),
        Some("agent-browser command failed with status: ended by a signal".to_string())
    );
}

#[test]
fn lines_of_a_run() {
    let s = step("s", 12, "type", &["#q", "hello world"]);
    assert_eq!(Line::step(&s), Line::Stdout("\n▶ Step 12: type #q hello world".to_string()));
    assert_eq!(Line::step(&step("s", -3, "back", &[])), Line::Stdout("\n▶ Step -3: back ".to_string()));
    assert_eq!(Line::executing(1), Line::Stdout("Executing 1 steps...".to_string()));
    assert_eq!(Line::fetching("abc"), Line::Stdout("Fetching test steps for test: abc".to_string()));
    assert_eq!(
        Line::unreachable("fetching tasks", "dns error"),
        Line::Stderr("Error fetching tasks: dns error".to_string())
    );
    let ok = classify(&s, &ProcessExit::Exited { code: Some(0) });
    assert_eq!(Line::outcome(&s, &ok), Line::Stdout("✓ Step 12 succeeded".to_string()));
    let odd = StepOutcome {
        step_id: "s".to_string(),
        launched: true,
        exit_success: false,
        diagnostic: None,
    };
    assert_eq!(Line::outcome(&s, &odd), Line::Stderr("✗ Step 12 failed: ".to_string()));
}

#[test]
fn verdict_lines() {
    let summary = |attempted, failed, final_status, error_detail: Option<&str>| RunSummary {
        test_id: "login".to_string(),
        attempted,
        failed,
        final_status,
        error_detail: error_detail.map(|e| e.to_string()),
    };
    assert_eq!(
        Line::verdict(&summary(3, 0, FinalStatus::Passed, None)),
        Line::Stdout("\n✓ Test login passed: 3 attempted, 0 failed".to_string())
    );
    assert_eq!(
        Line::verdict(&summary(3, 2, FinalStatus::Failed, None)),
        Line::Stderr("\n✗ Test login failed: 3 attempted, 2 failed".to_string())
    );
    assert_eq!(
        Line::verdict(&summary(0, 0, FinalStatus::Failed, Some("gone"))),
        Line::Stderr("\n✗ Test login failed: gone".to_string())
    );
    assert_eq!(
        Line::verdict(&summary(0, 0, FinalStatus::NoSteps, None)),
        Line::Stdout("No steps found for test login".to_string())
    );
}

#[test]
fn status_words() {
    assert_eq!(FinalStatus::Passed.word(), "passed");
    assert_eq!(FinalStatus::Failed.word(), "failed");
    assert_eq!(FinalStatus::NoSteps.word(), "no-steps");
}

#[test]
fn remote_errors_in_words() {
    let with_body = RemoteError { status: 500, body: Some("boom\nline two".to_string()) };
    assert_eq!(with_body.text(), "boom\nline two");
    assert_eq!(
        remote_error_report("fetching tasks", &with_body),
        vec![
            Line::Stderr("Error fetching tasks: 500".to_string()),
            Line::Stderr("boom\nline two".to_string()),
        ]
    );
    let empty_body = RemoteError { status: 502, body: Some(String::new()) };
    assert_eq!(empty_body.text(), "HTTP 502");
    assert_eq!(
        remote_error_report("x", &empty_body),
        vec![Line::Stderr("Error x: 502".to_string()), Line::Stderr(String::new())]
    );
    let no_body = RemoteError { status: 404, body: None };
    assert_eq!(no_body.text(), "HTTP 404");
    assert_eq!(
        remote_error_report("running test", &no_body),
        vec![Line::Stderr("Error running test: 404".to_string())]
    );
    assert_eq!(
        finish_report(FinalStatus::Failed, &FinishOutcome::Accepted),
        vec![Line::Stdout("✓ Test finished with status: failed".to_string())]
    );
}

#[test]
fn success_is_the_two_hundreds() {
    assert!(!is_success(0));
    assert!(!is_success(199));
    assert!(is_success(200));
    assert!(is_success(204));
    assert!(is_success(299));
    assert!(!is_success(300));
    assert!(!is_success(404));
    assert!(!is_success(500));
    assert!(!is_success(u16::MAX));
}

#[test]
fn requests_of_the_step_source() {
    let source = StepSource { base_url: "http://h:1".to_string(), repo: "my repo".to_string() };
    assert_eq!(
        source.fetch_steps("t 1"),
        Request {
            method: Method::Get,
            url: "http://h:1/api/tests/t 1/steps?repo=my%20repo".to_string(),
            body: None,
        }
    );
    assert_eq!(
        source.start_run("t1"),
        Request {
            method: Method::Post,
            url: "http://h:1/api/tests/t1/run?repo=my%20repo".to_string(),
            body: None,
        }
    );
    assert_eq!(
        source.list_executions("t1", 25),
        Request {
            method: Method::Get,
            url: "http://h:1/api/tests/t1/executions?repo=my%20repo&last=25".to_string(),
            body: None,
        }
    );
    assert_eq!(
        source.add_step("t1", "click", &strings(&["#a", "b c"])),
        Request {
            method: Method::Post,
            url: "http://h:1/api/tests/t1/steps?repo=my%20repo".to_string(),
            body: Some(Json::Object(vec![
                Member { name: "command".to_string(), value: Json::Text("click".to_string()) },
                Member {
                    name: "args".to_string(),
                    value: Json::List(vec![
                        Json::Text("#a".to_string()),
                        Json::Text("b c".to_string()),
                    ]),
                },
            ])),
        }
    );
    assert_eq!(
        source.report_finish("t1", "failed", &Some("why".to_string())),
        Request {
            method: Method::Post,
            url: "http://h:1/api/tests/t1/finish?repo=my%20repo".to_string(),
            body: Some(Json::Object(vec![
                Member { name: "status".to_string(), value: Json::Text("failed".to_string()) },
                Member { name: "error".to_string(), value: Json::Text("why".to_string()) },
            ])),
        }
    );
}

#[test]
fn repository_names_are_percent_encoded() {
    for repo in ["plain-Name_1.0~", "a b", "ü/ö?&=#%", "👾 Exterminate!", ""] {
        let source = StepSource { base_url: String::new(), repo: repo.to_string() };
        let url = source.fetch_steps("t").url;
        assert_eq!(url, format!("/api/tests/t/steps?repo={}", urlencoding::encode(repo)));
    }
    let source = StepSource { base_url: String::new(), repo: "ü/ö?&=#%".to_string() };
    assert_eq!(
        source.fetch_steps("t").url,
        "/api/tests/t/steps?repo=%C3%BC%2F%C3%B6%3F%26%3D%23%25"
    );
}

#[test]
fn repo_argument_is_the_one_after_the_first_flag() {
    assert_eq!(extract_repo_arg(&strings(&["navigate", "t", "--repo", "r"])), Some("r".to_string()));
    assert_eq!(
        extract_repo_arg(&strings(&["--repo", "a", "--repo", "b"])),
        Some("a".to_string())
    );
    assert_eq!(extract_repo_arg(&strings(&["navigate", "t", "--repo"])), None);
    assert_eq!(extract_repo_arg(&strings(&["navigate", "t"])), None);
    assert_eq!(extract_repo_arg(&strings(&[])), None);
    assert_eq!(
        extract_repo_arg(&strings(&["--repo", "--repo", "x"])),
        Some("--repo".to_string())
    );
    assert!(has_flag(&strings(&["a", "--report"]), "--report"));
    assert!(!has_flag(&strings(&["a", "--reports"]), "--report"));
}

#[test]
fn browser_command_tells_navigate_from_passthrough() {
    assert_eq!(
        browser_command(strings(&["navigate", "t1", "--repo", "demo"])),
        BrowserCommand::Navigate {
            test_id: "t1".to_string(),
            repo: "demo".to_string(),
            report: false,
        }
    );
    assert_eq!(
        browser_command(strings(&["navigate", "t1", "--report", "--repo", "demo"])),
        BrowserCommand::Navigate {
            test_id: "t1".to_string(),
            repo: "demo".to_string(),
            report: true,
        }
    );
    assert_eq!(
        browser_command(strings(&["navigate", "t1"])),
        BrowserCommand::MissingRepo {
            notices: vec![
                Line::Stderr("Error: --repo flag is required for 'navigate' command".to_string()),
                Line::Stderr("Usage: agelum browser navigate <test_id> --repo <repo>".to_string()),
            ],
        }
    );
    assert_eq!(
        browser_command(strings(&["navigate"])),
        BrowserCommand::Passthrough {
            invocation: Invocation {
                program: "agent-browser".to_string(),
                args: strings(&["navigate"]),
            },
        }
    );
    assert_eq!(
        browser_command(strings(&["open", "http://x", "--repo", "r"])),
        BrowserCommand::Passthrough {
            invocation: Invocation {
                program: "agent-browser".to_string(),
                args: strings(&["open", "http://x", "--repo", "r"]),
            },
        }
    );
    assert_eq!(
        browser_command(Vec::new()),
        BrowserCommand::Passthrough {
            invocation: Invocation { program: "agent-browser".to_string(), args: Vec::new() },
        }
    );
}
