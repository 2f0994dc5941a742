use ralps::autopilot::{daemon_conflict, RECENT_RUN_LIMIT, parse_pid, pid_file_text, run_record, schedule_request, SchedulerTick};
use ralps::cron::{cron_matches, matches_field};
use ralps::error::ApiError;
use ralps::model::{
    AgentResult, AutopilotRunRecord, AutopilotSchedule, AutopilotState, CommandExecution,
    ExecutionMode, Provider, TaskIntent, TaskPlan, UtcTime,
};
use ralps::mcp::ToolContext;
use ralps::model::AutopilotConfig;
use ralps::number::{decimal_chars, parse_u32};
use ralps::render::{newest_run_lines, run_line_text, schedule_line_text, schedule_lines, status_line, SHOWN_RUNS};
use chrono::{DateTime, Datelike, Timelike, Utc};

fn calendar(t: DateTime<Utc>) -> UtcTime {
    UtcTime {
        year: t.year(),
        month: t.month(),
        day: t.day(),
        hour: t.hour(),
        minute: t.minute(),
        second: t.second(),
        nanosecond: t.nanosecond(),
        weekday: t.weekday().num_days_from_sunday(),
    }
}

fn chars(s: &str) -> Vec<char> {
    s.chars().collect()
}

#[test]
fn cron_step_matches() {
    let now = DateTime::parse_from_rfc3339("2026-09-18T12:10:00Z")
        .unwrap()
        .with_timezone(&Utc);
    let now = calendar(now);
    assert!(cron_matches("*/5 * * * *", &now).unwrap());
    assert!(!cron_matches("*/7 * * * *", &now).unwrap());
}

#[test]
fn cron_lists_and_fields() {
    let now = calendar(DateTime::parse_from_rfc3339("2026-09-18T12:10:00Z").unwrap().with_timezone(&Utc));
    assert_eq!(now.weekday, 5);
    assert!(cron_matches("10 12 18 9 5", &now).unwrap());
    assert!(cron_matches("0,10,20 * * * *", &now).unwrap());
    assert!(!cron_matches("11 * * * *", &now).unwrap());
    assert!(!cron_matches("* * * * 0,6", &now).unwrap());
    assert!(!cron_matches("*/0 * * * *", &now).unwrap());
}

#[test]
fn cron_errors() {
    let now = calendar(DateTime::parse_from_rfc3339("2026-09-18T12:10:00Z").unwrap().with_timezone(&Utc));
    let e = cron_matches("* * * *", &now).unwrap_err();
    assert_eq!(e.message(), "cron expression must have 5 fields: * * * *");
    assert_eq!(cron_matches("*/x * * * *", &now).unwrap_err().message(), "invalid cron step");
    assert_eq!(cron_matches("a * * * *", &now).unwrap_err().message(), "invalid cron value: a");
    assert_eq!(cron_matches("10,b * * * *", &now).unwrap(), true);
    assert_eq!(cron_matches("b,10 * * * *", &now).unwrap_err().message(), "invalid cron value: b");
    assert_eq!(cron_matches("11 x * * *", &now).unwrap(), false);
    assert!(matches!(matches_field("1,,2", 3), Err(ApiError::InvalidCronValue { .. })));
}

#[test]
fn decimal_numbers() {
    assert_eq!(parse_u32(&chars("+42")), Some(42));
    assert_eq!(parse_u32(&chars("007")), Some(7));
    assert_eq!(parse_u32(&chars("4294967295")), Some(u32::MAX));
    assert_eq!(parse_u32(&chars("4294967296")), None);
    assert_eq!(parse_u32(&chars("")), None);
    assert_eq!(parse_u32(&chars("+")), None);
    assert_eq!(parse_u32(&chars("-1")), None);
    assert_eq!(parse_u32(&chars("1 2")), None);
    assert_eq!(decimal_chars(0), chars("0"));
    assert_eq!(decimal_chars(90210), chars("90210"));
}

#[test]
fn pid_file_round_trip() {
    for pid in [0u32, 7, 999999, u32::MAX] {
        assert_eq!(parse_pid(&pid_file_text(pid)).unwrap(), pid);
    }
    assert_eq!(parse_pid(" 4242\n").unwrap(), 4242);
    let e = parse_pid("not a pid").unwrap_err();
    assert_eq!(e.message(), "autopilot pid file is invalid");
}

#[test]
fn daemon_conflicts() {
    assert!(daemon_conflict(None, true).is_ok());
    assert!(daemon_conflict(Some(12), false).is_ok());
    assert_eq!(
        daemon_conflict(Some(12), true).unwrap_err().message(),
        "autopilot daemon already running with pid 12"
    );
}

fn schedule(name: &str, cron: &str, command: Option<&str>) -> AutopilotSchedule {
    AutopilotSchedule {
        name: name.to_string(),
        cron: cron.to_string(),
        prompt: "check system health".to_string(),
        provider: None,
        command: command.map(|c| c.to_string()),
        enabled: true,
    }
}

fn noon() -> UtcTime {
    UtcTime { year: 2026, month: 9, day: 18, hour: 12, minute: 10, second: 5, nanosecond: 0, weekday: 5 }
}

fn result_with(success: &[bool], output: &str) -> AgentResult {
    AgentResult {
        id: 1,
        output: output.to_string(),
        created_at: noon(),
        async_job: true,
        plan: TaskPlan { intent: TaskIntent::GuidanceOnly, steps: vec![], warnings: vec![] },
        provider_summary: None,
        commands: success
            .iter()
            .map(|&ok| CommandExecution {
                command: "echo healthy".to_string(),
                exit_code: 0,
                stdout: "healthy".to_string(),
                stderr: String::new(),
                success: ok,
                executed_at: noon(),
            })
            .collect(),
        warnings: vec![],
    }
}

fn running_state() -> AutopilotState {
    let mut s = AutopilotState::default();
    s.mark_started(77, 1);
    s
}

#[test]
fn schedule_requests_and_records() {
    let s = schedule("health-check", "* * * * *", Some("echo healthy"));
    let req = schedule_request(&s);
    assert_eq!(req.prompt, "run: echo healthy");
    assert_eq!(req.provider, Provider::Anthropic);
    assert_eq!(req.mode, ExecutionMode::Async);
    let rec = run_record(&s, noon(), &result_with(&[true], ""));
    assert_eq!(rec.summary, "executed echo healthy");
    assert!(rec.success);
    assert!(!run_record(&s, noon(), &result_with(&[], "")).success);
    assert!(!run_record(&s, noon(), &result_with(&[true, false], "")).success);

    let p = AutopilotSchedule { provider: Some(Provider::Gemini), ..schedule("p", "* * * * *", None) };
    let req = schedule_request(&p);
    assert_eq!(req.prompt, "check system health");
    assert_eq!(req.provider, Provider::Gemini);
    let rec = run_record(&p, noon(), &result_with(&[true], "\n  all good \nmore"));
    assert_eq!(rec.summary, "all good");
}

fn run_tick(schedules: Vec<AutopilotSchedule>, state: AutopilotState, now: UtcTime) -> (AutopilotState, Vec<AutopilotRunRecord>) {
    let mut tick = SchedulerTick::start(schedules, state, now).expect("running");
    while let Some(_req) = tick.next_request().unwrap() {
        tick.complete(&result_with(&[true], "done"));
    }
    tick.finish(1)
}

#[test]
fn autopilot_runs_due_schedule_once_per_minute() {
    let schedules = vec![schedule("health-check", "* * * * *", Some("echo healthy"))];
    let (state, first) = run_tick(schedules.clone(), running_state(), noon());
    assert_eq!(first.len(), 1);
    assert_eq!(state.recent_runs.len(), 1);
    assert_eq!(state.last_tick_at, Some(noon()));
    let (state, second) = run_tick(schedules.clone(), state, noon());
    assert!(second.is_empty());
    let later = UtcTime { minute: 11, ..noon() };
    let (_, third) = run_tick(schedules, state, later);
    assert_eq!(third.len(), 1);
}

#[test]
fn tick_skips_disabled_and_not_firing_schedules() {
    let mut off = schedule("off", "* * * * *", None);
    off.enabled = false;
    let schedules = vec![off, schedule("later", "30 * * * *", None), schedule("now", "10 * * * *", None)];
    let (_, runs) = run_tick(schedules, running_state(), noon());
    assert_eq!(runs.len(), 1);
    assert_eq!(runs[0].schedule_name, "now");
}

#[test]
fn tick_needs_a_running_autopilot() {
    assert!(SchedulerTick::start(vec![], AutopilotState::default(), noon()).is_none());
}

#[test]
fn tick_stops_on_a_bad_cron_expression() {
    let schedules = vec![schedule("bad", "* * *", None)];
    let mut tick = SchedulerTick::start(schedules, running_state(), noon()).unwrap();
    assert!(tick.next_request().is_err());
}

#[test]
fn state_keeps_the_newest_twenty_runs() {
    let mut state = running_state();
    for i in 0..25 {
        state.recent_runs.push(AutopilotRunRecord {
            schedule_name: format!("s{i}"),
            started_at: noon(),
            summary: String::new(),
            success: true,
        });
    }
    state.finish_tick(noon(), 3);
    assert_eq!(state.recent_runs.len(), 20);
    assert_eq!(state.recent_runs[0].schedule_name, "s5");
    assert_eq!(state.schedule_count, 3);
}

#[test]
fn daemon_bookkeeping() {
    let mut state = running_state();
    assert!(state.running);
    assert_eq!(state.daemon_pid, Some(77));
    assert_eq!(state.daemon_started_at, state.daemon_heartbeat_at);
    assert!(state.heartbeat(78).is_err());
    assert!(state.heartbeat(77).is_ok());
    state.mark_stopped(4);
    assert!(!state.running);
    assert_eq!(state.daemon_pid, None);
    assert_eq!(state.daemon_heartbeat_at, None);
    assert!(state.last_started_at.is_some());
    assert_eq!(state.schedule_count, 4);
    let e = state.heartbeat(77).unwrap_err();
    assert_eq!(e.message(), "daemon heartbeat rejected for non-owner pid");

    let observed = AutopilotState::observed(None, 2);
    assert!(!observed.running && observed.schedule_count == 2 && observed.recent_runs.is_empty());
    let mut stale = running_state();
    stale.clear_daemon();
    assert!(!stale.running);
    assert!(stale.daemon_pid.is_none());
}

#[test]
fn same_minute_runs_are_found() {
    let mut state = running_state();
    state.recent_runs.push(AutopilotRunRecord {
        schedule_name: "a".to_string(),
        started_at: noon(),
        summary: String::new(),
        success: true,
    });
    assert!(state.already_ran_this_minute("a", &UtcTime { second: 59, ..noon() }));
    assert!(!state.already_ran_this_minute("b", &noon()));
    assert!(!state.already_ran_this_minute("a", &UtcTime { hour: 13, ..noon() }));
}

#[test]
fn tick_keeps_the_newest_of_old_and_new_runs() {
    let mut state = running_state();
    for i in 0..19 {
        state.recent_runs.push(AutopilotRunRecord {
            schedule_name: format!("old{i}"),
            started_at: UtcTime { hour: 11, ..noon() },
            summary: String::new(),
            success: true,
        });
    }
    let schedules = vec![
        schedule("a", "* * * * *", None),
        schedule("b", "* * * * *", None),
        schedule("c", "* * * * *", None),
    ];
    let (state, runs) = run_tick(schedules, state, noon());
    let names: Vec<&str> = runs.iter().map(|r| r.schedule_name.as_str()).collect();
    assert_eq!(names, vec!["a", "b", "c"]);
    let kept: Vec<String> = state.recent_runs.iter().map(|r| r.schedule_name.clone()).collect();
    let mut expected: Vec<String> = (2..19).map(|i| format!("old{i}")).collect();
    expected.extend(["a", "b", "c"].iter().map(|s| s.to_string()));
    assert_eq!(kept, expected);
    assert!(state.running);
    assert_eq!(state.last_tick_at, Some(noon()));
}

fn record(name: &str, at: UtcTime, success: bool) -> AutopilotRunRecord {
    AutopilotRunRecord { schedule_name: name.to_string(), started_at: at, summary: format!("{name} done"), success }
}

#[test]
fn second_tick_with_a_full_history_finds_nothing() {
    let mut state = running_state();
    for i in 0..RECENT_RUN_LIMIT {
        state.recent_runs.push(record(&format!("old{i}"), UtcTime { hour: 11, ..noon() }, true));
    }
    let schedules = vec![schedule("a", "* * * * *", None), schedule("b", "10 * * * *", None)];
    let (state, first) = run_tick(schedules.clone(), state, noon());
    assert_eq!(first.len(), 2);
    assert_eq!(state.recent_runs.len(), RECENT_RUN_LIMIT);
    let (state, second) = run_tick(schedules, state, noon());
    assert!(second.is_empty());
    assert_eq!(state.recent_runs.len(), RECENT_RUN_LIMIT);
    assert_eq!(state.recent_runs[RECENT_RUN_LIMIT - 1].schedule_name, "b");
}

#[test]
fn autopilot_lines_for_display_and_tools() {
    let mut with_provider = schedule("nightly", "0 2 * * *", None);
    with_provider.provider = Some(Provider::Gemini);
    with_provider.enabled = false;
    let plain = schedule("health", "* * * * *", Some("uptime"));
    assert_eq!(
        schedule_line_text(&with_provider),
        "nightly (0 2 * * *) enabled=false provider=Gemini target=check system health"
    );
    assert_eq!(schedule_line_text(&plain), "health (* * * * *) enabled=true provider=Anthropic target=uptime");
    assert_eq!(schedule_lines(&vec![plain.clone(), with_provider.clone()]).len(), 2);

    assert_eq!(run_line_text(&record("health", noon(), true)), "health [ok] health done");
    assert_eq!(run_line_text(&record("disk", noon(), false)), "disk [failed] disk done");

    let runs: Vec<AutopilotRunRecord> = (0..7).map(|i| record(&format!("r{i}"), noon(), true)).collect();
    let shown = newest_run_lines(&runs, SHOWN_RUNS);
    assert_eq!(shown.len(), 5);
    assert_eq!(shown[0], "r6 [ok] r6 done");
    assert_eq!(shown[4], "r2 [ok] r2 done");
    assert_eq!(newest_run_lines(&runs[..2].to_vec(), SHOWN_RUNS), vec!["r1 [ok] r1 done", "r0 [ok] r0 done"]);

    let mut state = running_state();
    state.schedule_count = 12;
    state.recent_runs = runs;
    assert_eq!(status_line(&state), "running=true schedules=12 recent_runs=7");
    let config = AutopilotConfig { schedules: vec![plain, with_provider] };
    let ctx = ToolContext::from_state(&state, &config);
    assert_eq!(ctx.status, "running=true schedules=12 recent_runs=7");
    assert_eq!(ctx.schedules[0], "health (* * * * *) enabled=true provider=Anthropic target=uptime");
    assert_eq!(ctx.recent_runs.len(), 7);
    assert_eq!(ctx.recent_runs[0], "r6 [ok] r6 done");
    assert_eq!(status_line(&AutopilotState::default()), "running=false schedules=0 recent_runs=0");
}
