use ralps::command::{
    capture_execution, check_status_reply, execution_from_reply, route_command, split_command,
    status_endpoint, validate_command, CommandRoute, RemoteAttempts, RemoteOperation, RemoteReply,
};
use ralps::error::ApiError;
use ralps::model::{CommandExecution, RemoteConfig, UtcTime};
use ralps::render::{format_command_section, render_agent_output, summarize_line};
use ralps::text::truncate;

fn remote(enabled: bool, endpoint: Option<&str>) -> RemoteConfig {
    RemoteConfig {
        enabled,
        execute_endpoint: endpoint.map(|e| e.to_string()),
        status_endpoint: None,
        auth_token: Some("token".to_string()),
        timeout_secs: 5,
        retries: 2,
    }
}

fn at_noon() -> UtcTime {
    UtcTime { year: 2026, month: 9, day: 18, hour: 12, minute: 10, second: 0, nanosecond: 0, weekday: 5 }
}

fn execution(command: &str, stdout: &str, stderr: &str, success: bool) -> CommandExecution {
    CommandExecution {
        command: command.to_string(),
        exit_code: if success { 0 } else { 1 },
        stdout: stdout.to_string(),
        stderr: stderr.to_string(),
        success,
        executed_at: at_noon(),
    }
}

#[test]
fn validation_rejects_shell_operators() {
    match validate_command("ls | grep x") {
        Err(e @ ApiError::UnsafeOperator { .. }) => {
            assert_eq!(e.message(), "unsafe shell operator rejected in command: ls | grep x")
        }
        other => panic!("{other:?}"),
    }
    for c in ["a & b", "a; b", "a > b", "a < b", "echo `id`"] {
        assert!(matches!(validate_command(c), Err(ApiError::UnsafeOperator { .. })), "{c}");
    }
}

#[test]
fn validation_rejects_empty_and_unknown_programs() {
    let e = validate_command("   ").unwrap_err();
    assert!(matches!(e, ApiError::EmptyCommand));
    assert_eq!(e.message(), "command cannot be empty");
    let e = validate_command("rm -rf /tmp/x").unwrap_err();
    assert_eq!(e.message(), "command is not allowed: rm");
    assert!(validate_command("echo hello").is_ok());
}

#[test]
fn split_command_words() {
    assert_eq!(split_command("  git   status --short ").unwrap(), vec!["git", "status", "--short"]);
    assert!(matches!(split_command(""), Err(ApiError::EmptyCommand)));
}

#[test]
fn routing_local_and_remote() {
    match route_command("echo hello world", &remote(false, None)).unwrap() {
        CommandRoute::Local { program, args } => {
            assert_eq!(program, "echo");
            assert_eq!(args, vec!["hello", "world"]);
        }
        other => panic!("{other:?}"),
    }
    match route_command("uptime", &remote(true, Some("http://x/exec"))).unwrap() {
        CommandRoute::Remote { endpoint, auth_token, retries, timeout_secs } => {
            assert_eq!(endpoint, "http://x/exec");
            assert_eq!(auth_token.as_deref(), Some("token"));
            assert_eq!(retries, 2);
            assert_eq!(timeout_secs, 5);
        }
        other => panic!("{other:?}"),
    }
    let e = route_command("uptime", &remote(true, None)).unwrap_err();
    assert_eq!(e.message(), "remote mode enabled but execute_endpoint is not configured");
    let e = route_command("rm x", &remote(true, Some("http://x"))).unwrap_err();
    assert_eq!(e.message(), "command is not allowed: rm");
}

#[test]
fn truncation_by_bytes() {
    assert_eq!(truncate("hello", 10), "hello");
    assert_eq!(truncate("hello", 5), "hello");
    assert_eq!(truncate("hello world", 5), "hello...");
    assert_eq!(truncate("héllo", 3), "hé...");
}

#[test]
fn capture_decodes_and_cuts_output() {
    let x = capture_execution("echo", Some(0), b"hi\n", b"\xffbad", true);
    assert_eq!(x.command, "echo");
    assert_eq!(x.exit_code, 0);
    assert_eq!(x.stdout, "hi\n");
    assert_eq!(x.stderr, "\u{fffd}bad");
    assert!(x.success);
    assert!(x.executed_at.year >= 2024 && (1..=12).contains(&x.executed_at.month));

    let long = vec![b'a'; 5000];
    let x = capture_execution("cat", None, &long, b"", false);
    assert_eq!(x.exit_code, -1);
    assert_eq!(x.stdout.len(), 4003);
    assert!(x.stdout.ends_with("..."));
    assert!(!x.success);
}

#[test]
fn capture_cuts_before_a_split_character() {
    let mut bytes = vec![b'a'; 3999];
    bytes.extend_from_slice("é".as_bytes());
    bytes.extend_from_slice(b"tail");
    let x = capture_execution("cat", Some(0), &bytes, b"", true);
    assert_eq!(x.stdout, format!("{}...", "a".repeat(3999)));
    assert!(x.stdout.len() <= 4003);

    let mut fits = vec![b'b'; 3998];
    fits.extend_from_slice("é".as_bytes());
    let y = capture_execution("cat", Some(0), &fits, b"", true);
    assert_eq!(y.stdout, format!("{}é", "b".repeat(3998)));
}

#[test]
fn remote_reply_parsing() {
    let ok = RemoteReply {
        status: 200,
        error: None,
        exit_code: Some(3),
        stdout: Some("out".to_string()),
        stderr: None,
        success: Some(true),
    };
    let x = execution_from_reply("uptime", &ok).unwrap();
    assert_eq!((x.exit_code, x.stdout.as_str(), x.stderr.as_str(), x.success), (3, "out", "", true));

    let empty = RemoteReply { status: 200, error: None, exit_code: None, stdout: None, stderr: None, success: None };
    let x = execution_from_reply("uptime", &empty).unwrap();
    assert_eq!((x.exit_code, x.success), (-1, false));

    let wide = RemoteReply { exit_code: Some(1i64 << 32 | 7), ..empty.clone() };
    assert_eq!(execution_from_reply("uptime", &wide).unwrap().exit_code, 7);

    let refused = RemoteReply { status: 500, error: Some("boom".to_string()), ..empty.clone() };
    assert_eq!(execution_from_reply("uptime", &refused).unwrap_err().message(), "boom");
    let refused = RemoteReply { status: 404, ..empty };
    assert_eq!(execution_from_reply("uptime", &refused).unwrap_err().message(), "remote execution error");
}

#[test]
fn status_reply_and_endpoint() {
    assert!(check_status_reply(200, &None).is_ok());
    assert_eq!(check_status_reply(503, &None).unwrap_err().message(), "remote status request failed");
    assert_eq!(check_status_reply(401, &Some("denied".to_string())).unwrap_err().message(), "denied");
    let e = status_endpoint(&RemoteConfig::default()).unwrap_err();
    assert_eq!(e.message(), "remote mode enabled but status_endpoint is not configured");
}

#[test]
fn remote_attempts_count_and_errors() {
    let mut a = RemoteAttempts::new(RemoteOperation::Execute, 2);
    let mut n = 0;
    while a.start_attempt() {
        n += 1;
        if n == 1 {
            a.request_failed("connection refused");
        } else {
            a.timed_out(30);
        }
    }
    assert_eq!(n, 3);
    assert_eq!(a.into_error().message(), "remote execute timed out after 30s");

    let mut a = RemoteAttempts::new(RemoteOperation::Status, 0);
    assert!(a.start_attempt());
    a.request_failed("dns");
    assert!(!a.start_attempt());
    assert_eq!(a.into_error().message(), "remote status request failed: dns");

    let a = RemoteAttempts::new(RemoteOperation::Execute, u32::MAX);
    assert_eq!(a.remaining, u32::MAX);
    let a = RemoteAttempts { remaining: 0, ..a };
    assert_eq!(a.into_error().message(), "remote execute failed");
}

#[test]
fn command_section_layout() {
    let cs = vec![
        execution("echo hi", "hi\nthere\n", "  ", true),
        execution("ls nope", "", "no such file\n", false),
    ];
    assert_eq!(
        format_command_section(&cs),
        "Executed commands:\n- echo hi [ok]\n  stdout: hi | there\n- ls nope [failed]\n  stderr: no such file"
    );
}

#[test]
fn agent_output_layout() {
    assert_eq!(render_agent_output(&[], None, &[]), "No output produced.");
    let out = render_agent_output(
        &[execution("uptime", "up 3 days", "", true)],
        Some("[anthropic] check"),
        &["first".to_string(), "second".to_string()],
    );
    assert_eq!(
        out,
        "Executed commands:\n- uptime [ok]\n  stdout: up 3 days\n\nProvider summary:\n[anthropic] check\n\nWarnings:\n- first\n- second"
    );
}

#[test]
fn one_line_summaries() {
    assert_eq!(summarize_line("\n  \r\n  first line \nsecond"), "first line");
    assert_eq!(summarize_line(" \n\t\n"), "completed");
    assert_eq!(summarize_line(""), "completed");
}
