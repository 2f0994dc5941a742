use ralps::model::{PlanStepSafety, TaskIntent};
use ralps::planner::{build_task_plan, extract_prefixed_command, is_allowed_program};

#[test]
fn planner_builds_multi_step_health_plan() {
    let plan = build_task_plan("check system health");
    assert_eq!(plan.intent, TaskIntent::SystemHealth);
    assert!(plan.steps.len() >= 3);
    assert!(plan.warnings.is_empty());
}

#[test]
fn planner_guidance_only_for_unmatched_prompt() {
    let plan = build_task_plan("write me a poem about stars");
    assert_eq!(plan.intent, TaskIntent::GuidanceOnly);
    assert!(plan.steps.is_empty());
    assert!(!plan.warnings.is_empty());
}

#[test]
fn planner_takes_explicit_command() {
    let plan = build_task_plan("  run:   echo hello  ");
    assert_eq!(plan.intent, TaskIntent::DirectCommand);
    assert_eq!(plan.steps.len(), 1);
    assert_eq!(plan.steps[0].description, "Execute explicit command");
    assert_eq!(plan.steps[0].command.as_deref(), Some("echo hello"));
    assert_eq!(plan.steps[0].safety, PlanStepSafety::Safe);
    assert!(plan.warnings.is_empty());
}

#[test]
fn planner_reports_empty_prompt() {
    let plan = build_task_plan(" \t\n ");
    assert_eq!(plan.intent, TaskIntent::GuidanceOnly);
    assert!(plan.steps.is_empty());
    assert_eq!(plan.warnings, vec!["Prompt was empty.".to_string()]);
}

#[test]
fn planner_matches_templates_in_any_letter_case() {
    let plan = build_task_plan("Please CHECK System Health now");
    assert_eq!(plan.intent, TaskIntent::SystemHealth);
    let commands: Vec<_> = plan.steps.iter().map(|s| s.command.clone().unwrap()).collect();
    assert_eq!(commands, vec!["uptime", "df -h", "uname -a"]);

    let plan = build_task_plan("GIT STATUS");
    assert_eq!(plan.intent, TaskIntent::RepoStatus);
    assert_eq!(plan.steps[0].command.as_deref(), Some("git status --short --branch"));
    assert_eq!(plan.steps[1].command.as_deref(), Some("git rev-parse --short HEAD"));
}

#[test]
fn planner_other_templates() {
    let plan = build_task_plan("run some diagnostics");
    assert_eq!(plan.intent, TaskIntent::Diagnostics);
    assert_eq!(plan.steps[1].command.as_deref(), Some("ps -eo pid,comm,%cpu,%mem"));

    let plan = build_task_plan("show files here");
    assert_eq!(plan.intent, TaskIntent::FileInspection);
    assert_eq!(plan.steps[0].command.as_deref(), Some("pwd"));
    assert_eq!(plan.steps[1].command.as_deref(), Some("ls"));
}

#[test]
fn planner_infers_allowed_command() {
    let plan = build_task_plan("kubectl get pods");
    assert_eq!(plan.intent, TaskIntent::DirectCommand);
    assert_eq!(plan.steps[0].command.as_deref(), Some("kubectl get pods"));
    assert_eq!(plan.steps[0].safety, PlanStepSafety::ReviewRequired);
    assert_eq!(
        plan.warnings,
        vec!["Command inferred from prompt text; review before execution.".to_string()]
    );
}

#[test]
fn unmatched_prompt_gets_two_warnings() {
    let plan = build_task_plan("rm -rf /");
    assert_eq!(
        plan.warnings,
        vec![
            "No safe command template matched the prompt.".to_string(),
            "Use `run: <command>` for explicit execution.".to_string()
        ]
    );
}

#[test]
fn prefixes_are_tried_in_order() {
    assert_eq!(extract_prefixed_command("cmd: ls -la"), Some("ls -la".to_string()));
    assert_eq!(extract_prefixed_command("command:pwd"), Some("pwd".to_string()));
    assert_eq!(extract_prefixed_command("$ whoami"), Some("whoami".to_string()));
    assert_eq!(extract_prefixed_command("run:   "), None);
    assert_eq!(extract_prefixed_command("RUN: ls"), None);
}

#[test]
fn allowlist() {
    for p in ["pwd", "ls", "echo", "git", "kubectl", "ps", "free"] {
        assert!(is_allowed_program(p), "{p}");
    }
    for p in ["rm", "sh", "bash", "Ls", ""] {
        assert!(!is_allowed_program(p), "{p}");
    }
}

#[test]
fn template_commands_pass_validation() {
    for prompt in ["check system health", "diagnostics", "git status", "list files"] {
        let plan = build_task_plan(prompt);
        assert!(!plan.steps.is_empty());
        for step in &plan.steps {
            assert_eq!(step.safety, PlanStepSafety::Safe);
            let command = step.command.as_deref().unwrap();
            assert!(ralps::command::validate_command(command).is_ok(), "{command}");
        }
    }
}

#[test]
fn inferred_commands_name_allowed_programs() {
    let plan = build_task_plan("git log --oneline");
    assert_eq!(plan.steps[0].safety, PlanStepSafety::ReviewRequired);
    assert!(ralps::command::validate_command(plan.steps[0].command.as_deref().unwrap()).is_ok());
    let plan = build_task_plan("git log | head");
    assert_eq!(plan.steps[0].safety, PlanStepSafety::ReviewRequired);
    assert!(matches!(
        ralps::command::validate_command(plan.steps[0].command.as_deref().unwrap()),
        Err(ralps::error::ApiError::UnsafeOperator { .. })
    ));
}

#[test]
fn plans_have_a_consistent_shape() {
    let prompts = [
        "",
        "   ",
        "check system health",
        "Run diagnostics please",
        "git status",
        "list files",
        "run:   ls -la  ",
        "$ pwd",
        "ls -la /tmp",
        "write me a poem",
    ];
    for prompt in prompts {
        let plan = build_task_plan(prompt);
        assert_eq!(plan.steps.is_empty(), plan.intent == TaskIntent::GuidanceOnly, "{prompt:?}");
        if plan.intent == TaskIntent::GuidanceOnly {
            assert!(!plan.warnings.is_empty(), "{prompt:?}");
        }
        for step in &plan.steps {
            let command = step.command.as_deref().expect("every step runs a command");
            assert!(!command.is_empty());
            assert_eq!(command.trim(), command);
        }
        let again = build_task_plan(prompt.trim());
        assert_eq!(again.intent, plan.intent);
        assert_eq!(again.warnings, plan.warnings);
        let commands = |p: &ralps::model::TaskPlan| -> Vec<Option<String>> {
            p.steps.iter().map(|s| s.command.clone()).collect()
        };
        assert_eq!(commands(&again), commands(&plan));
    }
    assert_eq!(build_task_plan("run:   ls -la  ").steps[0].command.as_deref(), Some("ls -la"));
}
