//! Deriving a structured task plan from a prompt.
use vstd::prelude::*;
use crate::model::{opt_view, PlanStepSafety, PlanView, StepView, TaskIntent, TaskPlan, TaskPlanStep};
use crate::text::{
    chars_of, contains_seq, has_block, has_prefix, same_chars, split_words, starts_with, string_of,
    to_lowercase, trim, lowercase, is_ws, lemma_trim_fixed, lemma_trim_idempotent, lemma_trim_ends_filled,
    lemma_words_nonempty, trim_chars, words, char_rows,
};

verus! {

/// Whether `p` names a program on the command allowlist.
pub open spec fn allowed_program(p: Seq<char>) -> bool {
    ||| p == "pwd"@
    ||| p == "ls"@
    ||| p == "echo"@
    ||| p == "cat"@
    ||| p == "head"@
    ||| p == "tail"@
    ||| p == "grep"@
    ||| p == "rg"@
    ||| p == "find"@
    ||| p == "git"@
    ||| p == "cargo"@
    ||| p == "kubectl"@
    ||| p == "docker"@
    ||| p == "terraform"@
    ||| p == "uptime"@
    ||| p == "uname"@
    ||| p == "whoami"@
    ||| p == "date"@
    ||| p == "df"@
    ||| p == "free"@
    ||| p == "ps"@
}

/// The command that follows `prefix` in `p`, trimmed, when `p` starts with
/// `prefix` and something other than white space follows it.
pub open spec fn after_prefix(p: Seq<char>, prefix: Seq<char>) -> Option<Seq<char>> {
    if starts_with(p, prefix) && trim(p.skip(prefix.len() as int)).len() > 0 {
        Some(trim(p.skip(prefix.len() as int)))
    } else {
        None
    }
}

/// The command given explicitly in `p` with the first of the prefixes
/// `run:`, `cmd:`, `command:` and `$ ` that is followed by one.
pub open spec fn prefixed_command(p: Seq<char>) -> Option<Seq<char>> {
    if after_prefix(p, "run:"@) is Some {
        after_prefix(p, "run:"@)
    } else if after_prefix(p, "cmd:"@) is Some {
        after_prefix(p, "cmd:"@)
    } else if after_prefix(p, "command:"@) is Some {
        after_prefix(p, "command:"@)
    } else {
        after_prefix(p, "$ "@)
    }
}

/// The first white-space separated word of `s`, or nothing.
pub open spec fn first_word(s: Seq<char>) -> Seq<char> {
    if words(s).len() > 0 {
        words(s)[0]
    } else {
        Seq::empty()
    }
}

/// A plan step that runs `command`.
pub open spec fn step_of(description: Seq<char>, command: Seq<char>, safety: PlanStepSafety) -> StepView {
    StepView { description, command: Some(command), safety }
}

/// A plan step whose command needs no review.
pub open spec fn safe_step(description: Seq<char>, command: Seq<char>) -> StepView {
    step_of(description, command, PlanStepSafety::Safe)
}

/// The plan for a trimmed prompt `trimmed` whose lower-cased form is `normalized`.
pub open spec fn plan_for(trimmed: Seq<char>, normalized: Seq<char>) -> PlanView {
    if trimmed.len() == 0 {
        PlanView {
            intent: TaskIntent::GuidanceOnly,
            steps: seq![],
            warnings: seq!["Prompt was empty."@],
        }
    } else if prefixed_command(trimmed) is Some {
        PlanView {
            intent: TaskIntent::DirectCommand,
            steps: seq![
                step_of("Execute explicit command"@, prefixed_command(trimmed)->0, PlanStepSafety::Safe),
            ],
            warnings: seq![],
        }
    } else if contains_seq(normalized, "check system health"@) || contains_seq(
        normalized,
        "system health"@,
    ) {
        PlanView {
            intent: TaskIntent::SystemHealth,
            steps: seq![
                safe_step("Read host uptime"@, "uptime"@),
                safe_step("Check disk pressure"@, "df -h"@),
                safe_step("Capture host kernel details"@, "uname -a"@),
            ],
            warnings: seq![],
        }
    } else if contains_seq(normalized, "diagnostic"@) || contains_seq(normalized, "diagnostics"@) {
        PlanView {
            intent: TaskIntent::Diagnostics,
            steps: seq![
                safe_step("Read host uptime"@, "uptime"@),
                safe_step("List top processes by CPU and memory"@, "ps -eo pid,comm,%cpu,%mem"@),
                safe_step("Capture filesystem usage"@, "df -h"@),
            ],
            warnings: seq![],
        }
    } else if normalized == "git status"@ || contains_seq(normalized, "show git status"@) {
        PlanView {
            intent: TaskIntent::RepoStatus,
            steps: seq![
                safe_step("Inspect git branch and worktree status"@, "git status --short --branch"@),
                safe_step("Show current HEAD revision"@, "git rev-parse --short HEAD"@),
            ],
            warnings: seq![],
        }
    } else if contains_seq(normalized, "list files"@) || contains_seq(normalized, "show files"@) {
        PlanView {
            intent: TaskIntent::FileInspection,
            steps: seq![
                safe_step("Print current working directory"@, "pwd"@),
                safe_step("List files in current directory"@, "ls"@),
            ],
            warnings: seq![],
        }
    } else if allowed_program(first_word(trimmed)) {
        PlanView {
            intent: TaskIntent::DirectCommand,
            steps: seq![
                step_of("Execute inferred command"@, trimmed, PlanStepSafety::ReviewRequired),
            ],
            warnings: seq!["Command inferred from prompt text; review before execution."@],
        }
    } else {
        PlanView {
            intent: TaskIntent::GuidanceOnly,
            steps: seq![],
            warnings: seq![
                "No safe command template matched the prompt."@,
                "Use `run: <command>` for explicit execution."@,
            ],
        }
    }
}

/// Whether `v` holds exactly the characters of `s`.
fn chars_are(v: &Vec<char>, s: &str) -> (r: bool)
    ensures
        r == (v@ == s@),
{
    same_chars(v, &chars_of(s))
}

fn allowed_chars(p: &Vec<char>) -> (r: bool)
    ensures
        r == allowed_program(p@),
{
    chars_are(p, "pwd") || chars_are(p, "ls") || chars_are(p, "echo") || chars_are(p, "cat")
        || chars_are(p, "head") || chars_are(p, "tail") || chars_are(p, "grep") || chars_are(
        p,
        "rg",
    ) || chars_are(p, "find") || chars_are(p, "git") || chars_are(p, "cargo") || chars_are(
        p,
        "kubectl",
    ) || chars_are(p, "docker") || chars_are(p, "terraform") || chars_are(p, "uptime")
        || chars_are(p, "uname") || chars_are(p, "whoami") || chars_are(p, "date") || chars_are(
        p,
        "df",
    ) || chars_are(p, "free") || chars_are(p, "ps")
}

/// Whether `program` is on the command allowlist.
pub fn is_allowed_program(program: &str) -> (r: bool)
    ensures
        r == allowed_program(program@),
{
    allowed_chars(&chars_of(program))
}

/// The trimmed text after `prefix` in `p`, when there is such text.
fn command_after(p: &Vec<char>, prefix: &str) -> (r: Option<Vec<char>>)
    ensures
        match r {
            Some(c) => after_prefix(p@, prefix@) == Some(c@),
            None => after_prefix(p@, prefix@) is None,
        },
{
    let pre = chars_of(prefix);
    if !has_prefix(p, &pre) {
        return None;
    }
    let mut rest: Vec<char> = Vec::new();
    let mut i: usize = pre.len();
    while i < p.len()
        invariant
            pre@ == prefix@,
            pre.len() <= i <= p.len(),
            rest@ == p@.subrange(pre@.len() as int, i as int),
        decreases p.len() - i,
    {
        rest.push(p[i]);
        i = i + 1;
        assert(rest@ =~= p@.subrange(pre@.len() as int, i as int));
    }
    assert(rest@ =~= p@.skip(prefix@.len() as int));
    let t = trim_chars(&rest);
    if t.len() == 0 {
        None
    } else {
        Some(t)
    }
}

fn prefixed_chars(p: &Vec<char>) -> (r: Option<Vec<char>>)
    ensures
        match r {
            Some(c) => prefixed_command(p@) == Some(c@),
            None => prefixed_command(p@) is None,
        },
{
    if let Some(c) = command_after(p, "run:") {
        return Some(c);
    }
    if let Some(c) = command_after(p, "cmd:") {
        return Some(c);
    }
    if let Some(c) = command_after(p, "command:") {
        return Some(c);
    }
    command_after(p, "$ ")
}

/// The command given explicitly in `prompt` after `run:`, `cmd:`, `command:` or `$ `.
pub fn extract_prefixed_command(prompt: &str) -> (r: Option<String>)
    ensures
        opt_view(r) == prefixed_command(prompt@),
{
    match prefixed_chars(&chars_of(prompt)) {
        Some(c) => Some(string_of(&c)),
        None => None,
    }
}

/// A plan step that runs `command` without review.
fn plan_step(description: &str, command: &str) -> (r: TaskPlanStep)
    ensures
        r@ == safe_step(description@, command@),
{
    TaskPlanStep {
        description: description.to_owned(),
        command: Some(command.to_owned()),
        safety: PlanStepSafety::Safe,
    }
}


/// A plan with the given intent, steps and warnings.
fn make_plan(intent: TaskIntent, steps: Vec<TaskPlanStep>, warnings: Vec<String>) -> (r: TaskPlan)
    ensures
        r.intent == intent,
        r@.steps == steps@.map_values(|s: TaskPlanStep| s@),
        r@.warnings == warnings@.map_values(|w: String| w@),
{
    TaskPlan { intent, steps, warnings }
}

fn lines_of(texts: &[&str]) -> (r: Vec<String>)
    ensures
        r@.len() == texts@.len(),
        forall|i: int| 0 <= i < texts@.len() ==> #[trigger] r@[i]@ == texts@[i]@,
{
    let mut r: Vec<String> = Vec::new();
    let mut i: usize = 0;
    while i < texts.len()
        invariant
            i <= texts@.len(),
            r@.len() == i,
            forall|k: int| 0 <= k < i ==> #[trigger] r@[k]@ == texts@[k]@,
        decreases texts.len() - i,
    {
        r.push(texts[i].to_owned());
        i = i + 1;
    }
    r
}

/// The plan for the trimmed prompt `trimmed` whose lower-cased form is `normalized`.
pub fn plan_from_parts(trimmed: &str, normalized: &str) -> (r: TaskPlan)
    ensures
        r@ == plan_for(trimmed@, normalized@),
{
    let tc = chars_of(trimmed);
    let nc = chars_of(normalized);
    if tc.len() == 0 {
        let w = lines_of(&["Prompt was empty."]);
        let r = make_plan(TaskIntent::GuidanceOnly, Vec::new(), w);
        assert(r@.steps =~= plan_for(trimmed@, normalized@).steps);
        assert(r@.warnings =~= plan_for(trimmed@, normalized@).warnings);
        return r;
    }
    if let Some(c) = prefixed_chars(&tc) {
        let mut steps: Vec<TaskPlanStep> = Vec::new();
        steps.push(
            TaskPlanStep {
                description: "Execute explicit command".to_owned(),
                command: Some(string_of(&c)),
                safety: PlanStepSafety::Safe,
            },
        );
        let r = make_plan(TaskIntent::DirectCommand, steps, Vec::new());
        assert(r@.steps =~= plan_for(trimmed@, normalized@).steps);
        assert(r@.warnings =~= plan_for(trimmed@, normalized@).warnings);
        return r;
    }
    if has_block(&nc, &chars_of("check system health")) || has_block(&nc, &chars_of("system health")) {
        let mut steps: Vec<TaskPlanStep> = Vec::new();
        steps.push(plan_step("Read host uptime", "uptime"));
        steps.push(plan_step("Check disk pressure", "df -h"));
        steps.push(plan_step("Capture host kernel details", "uname -a"));
        let r = make_plan(TaskIntent::SystemHealth, steps, Vec::new());
        assert(r@.steps =~= plan_for(trimmed@, normalized@).steps);
        assert(r@.warnings =~= plan_for(trimmed@, normalized@).warnings);
        return r;
    }
    if has_block(&nc, &chars_of("diagnostic")) || has_block(&nc, &chars_of("diagnostics")) {
        let mut steps: Vec<TaskPlanStep> = Vec::new();
        steps.push(plan_step("Read host uptime", "uptime"));
        steps.push(plan_step("List top processes by CPU and memory", "ps -eo pid,comm,%cpu,%mem"));
        steps.push(plan_step("Capture filesystem usage", "df -h"));
        let r = make_plan(TaskIntent::Diagnostics, steps, Vec::new());
        assert(r@.steps =~= plan_for(trimmed@, normalized@).steps);
        assert(r@.warnings =~= plan_for(trimmed@, normalized@).warnings);
        return r;
    }
    if chars_are(&nc, "git status") || has_block(&nc, &chars_of("show git status")) {
        let mut steps: Vec<TaskPlanStep> = Vec::new();
        steps.push(plan_step("Inspect git branch and worktree status", "git status --short --branch"));
        steps.push(plan_step("Show current HEAD revision", "git rev-parse --short HEAD"));
        let r = make_plan(TaskIntent::RepoStatus, steps, Vec::new());
        assert(r@.steps =~= plan_for(trimmed@, normalized@).steps);
        assert(r@.warnings =~= plan_for(trimmed@, normalized@).warnings);
        return r;
    }
    if has_block(&nc, &chars_of("list files")) || has_block(&nc, &chars_of("show files")) {
        let mut steps: Vec<TaskPlanStep> = Vec::new();
        steps.push(plan_step("Print current working directory", "pwd"));
        steps.push(plan_step("List files in current directory", "ls"));
        let r = make_plan(TaskIntent::FileInspection, steps, Vec::new());
        assert(r@.steps =~= plan_for(trimmed@, normalized@).steps);
        assert(r@.warnings =~= plan_for(trimmed@, normalized@).warnings);
        return r;
    }
    let ws = split_words(&tc);
    let first: Vec<char> = if ws.len() > 0 { ws[0].clone() } else { Vec::new() };
    assert(first@ == first_word(trimmed@)) by {
        if ws@.len() > 0 {
            assert(char_rows(ws@)[0] == ws@[0]@);
        }
    }
    if allowed_chars(&first) {
        let mut steps: Vec<TaskPlanStep> = Vec::new();
        steps.push(
            TaskPlanStep {
                description: "Execute inferred command".to_owned(),
                command: Some(trimmed.to_owned()),
                safety: PlanStepSafety::ReviewRequired,
            },
        );
        let w = lines_of(&["Command inferred from prompt text; review before execution."]);
        let r = make_plan(TaskIntent::DirectCommand, steps, w);
        assert(r@.steps =~= plan_for(trimmed@, normalized@).steps);
        assert(r@.warnings =~= plan_for(trimmed@, normalized@).warnings);
        return r;
    }
    let w = lines_of(
        &["No safe command template matched the prompt.", "Use `run: <command>` for explicit execution."],
    );
    let r = make_plan(TaskIntent::GuidanceOnly, Vec::new(), w);
    assert(r@.steps =~= plan_for(trimmed@, normalized@).steps);
    assert(r@.warnings =~= plan_for(trimmed@, normalized@).warnings);
    r
}

/// The plan for `prompt`: the prompt is trimmed and matched, in lower case,
/// against the known task templates.
pub fn build_task_plan(prompt: &str) -> (r: TaskPlan)
    ensures
        r@ == plan_for(trim(prompt@), lowercase(trim(prompt@))),
{
    let trimmed = string_of(&trim_chars(&chars_of(prompt)));
    let normalized = to_lowercase(trimmed.as_str());
    plan_from_parts(trimmed.as_str(), normalized.as_str())
}


/// Whether every step of `steps` runs a command that is not empty and has no
/// white space around it.
pub open spec fn commands_filled(steps: Seq<StepView>) -> bool {
    forall|i: int|
        0 <= i < steps.len() ==> ((#[trigger] steps[i]).command matches Some(c) && c.len() > 0
            && trim(c) == c)
}

proof fn lemma_literal_trimmed(s: Seq<char>)
    requires
        s.len() > 0,
        !is_ws(s[0]),
        !is_ws(s.last()),
    ensures
        s.len() > 0 && trim(s) == s,
{
    lemma_trim_fixed(s);
}

proof fn lemma_template_commands_trimmed()
    ensures
        "uptime"@.len() > 0 && trim("uptime"@) == "uptime"@,
        "df -h"@.len() > 0 && trim("df -h"@) == "df -h"@,
        "uname -a"@.len() > 0 && trim("uname -a"@) == "uname -a"@,
        "ps -eo pid,comm,%cpu,%mem"@.len() > 0 && trim("ps -eo pid,comm,%cpu,%mem"@)
            == "ps -eo pid,comm,%cpu,%mem"@,
        "git status --short --branch"@.len() > 0 && trim("git status --short --branch"@)
            == "git status --short --branch"@,
        "git rev-parse --short HEAD"@.len() > 0 && trim("git rev-parse --short HEAD"@)
            == "git rev-parse --short HEAD"@,
        "pwd"@.len() > 0 && trim("pwd"@) == "pwd"@,
        "ls"@.len() > 0 && trim("ls"@) == "ls"@,
{
    reveal_strlit("uptime");
    reveal_strlit("df -h");
    reveal_strlit("uname -a");
    reveal_strlit("ps -eo pid,comm,%cpu,%mem");
    reveal_strlit("git status --short --branch");
    reveal_strlit("git rev-parse --short HEAD");
    reveal_strlit("pwd");
    reveal_strlit("ls");
    lemma_literal_trimmed("uptime"@);
    lemma_literal_trimmed("df -h"@);
    lemma_literal_trimmed("uname -a"@);
    lemma_literal_trimmed("ps -eo pid,comm,%cpu,%mem"@);
    lemma_literal_trimmed("git status --short --branch"@);
    lemma_literal_trimmed("git rev-parse --short HEAD"@);
    lemma_literal_trimmed("pwd"@);
    lemma_literal_trimmed("ls"@);
}

/// The shape of every plan: it has no step exactly when it only gives guidance,
/// guidance always comes with a warning, every step runs a command that is not
/// empty and has no white space around it, and trimming the prompt before
/// planning changes nothing.
pub proof fn lemma_plan_shape(prompt: Seq<char>)
    ensures
        ({
            let plan = plan_for(trim(prompt), lowercase(trim(prompt)));
            &&& plan.steps.len() == 0 <==> plan.intent == TaskIntent::GuidanceOnly
            &&& plan.intent == TaskIntent::GuidanceOnly ==> plan.warnings.len() > 0
            &&& commands_filled(plan.steps)
            &&& plan_for(trim(trim(prompt)), lowercase(trim(trim(prompt)))) == plan
        }),
{
    let t = trim(prompt);
    lemma_trim_idempotent(prompt);
    lemma_template_commands_trimmed();
    let plan = plan_for(t, lowercase(t));
    if prefixed_command(t) is Some {
        let c = prefixed_command(t)->0;
        assert(exists|x: Seq<char>| c == trim(x)) by {
            if after_prefix(t, "run:"@) is Some {
                assert(c == trim(t.skip("run:"@.len() as int)));
            } else if after_prefix(t, "cmd:"@) is Some {
                assert(c == trim(t.skip("cmd:"@.len() as int)));
            } else if after_prefix(t, "command:"@) is Some {
                assert(c == trim(t.skip("command:"@.len() as int)));
            } else {
                assert(c == trim(t.skip("$ "@.len() as int)));
            }
        }
        let x = choose|x: Seq<char>| c == trim(x);
        lemma_trim_idempotent(x);
    }
    assert(commands_filled(plan.steps));
}

/// The allowlist is exactly these twenty-one programs.
pub proof fn lemma_allowlist(p: Seq<char>)
    ensures
        allowed_program(p) <==> set![
            "pwd"@, "ls"@, "echo"@, "cat"@, "head"@, "tail"@, "grep"@, "rg"@, "find"@, "git"@,
            "cargo"@, "kubectl"@, "docker"@, "terraform"@, "uptime"@, "uname"@, "whoami"@,
            "date"@, "df"@, "free"@, "ps"@,
        ].contains(p),
{
}

/// A prompt that is blank once trimmed gets guidance that says so, and no step.
pub proof fn lemma_blank_prompt_plan(prompt: Seq<char>)
    requires
        trim(prompt).len() == 0,
    ensures
        ({
            let plan = plan_for(trim(prompt), lowercase(trim(prompt)));
            &&& plan.intent == TaskIntent::GuidanceOnly
            &&& plan.steps.len() == 0
            &&& plan.warnings == seq!["Prompt was empty."@]
        }),
{
}

/// A prompt that gives a command after `run:`, `cmd:`, `command:` or `$ `
/// gets a single safe step that runs that command, trimmed, with no warning.
pub proof fn lemma_explicit_command_plan(prompt: Seq<char>, prefix: Seq<char>)
    requires
        prefix == "run:"@ || prefix == "cmd:"@ || prefix == "command:"@ || prefix == "$ "@,
        starts_with(trim(prompt), prefix),
        trim(trim(prompt).skip(prefix.len() as int)).len() > 0,
    ensures
        ({
            let plan = plan_for(trim(prompt), lowercase(trim(prompt)));
            &&& plan.intent == TaskIntent::DirectCommand
            &&& plan.steps == seq![
                StepView {
                    description: "Execute explicit command"@,
                    command: Some(trim(trim(prompt).skip(prefix.len() as int))),
                    safety: PlanStepSafety::Safe,
                },
            ]
            &&& plan.warnings.len() == 0
        }),
{
    let t = trim(prompt);
    reveal_strlit("run:");
    reveal_strlit("cmd:");
    reveal_strlit("command:");
    reveal_strlit("$ ");
    assert(t.subrange(0, prefix.len() as int)[0] == t[0]);
    assert(t.subrange(0, prefix.len() as int)[1] == t[1]);
    if starts_with(t, "run:"@) {
        assert(t.subrange(0, 4)[0] == t[0]);
    }
    if starts_with(t, "cmd:"@) {
        assert(t.subrange(0, 4)[0] == t[0]);
        assert(t.subrange(0, 4)[1] == t[1]);
    }
    if starts_with(t, "command:"@) {
        assert(t.subrange(0, 8)[0] == t[0]);
        assert(t.subrange(0, 8)[1] == t[1]);
    }
    if starts_with(t, "$ "@) {
        assert(t.subrange(0, 2)[0] == t[0]);
    }
}

/// A prompt with no explicit command whose lower-cased text mentions
/// `system health` gets the three health checks: uptime, disk usage and the
/// kernel details, with no warning.
pub proof fn lemma_system_health_plan(prompt: Seq<char>)
    requires
        trim(prompt).len() > 0,
        prefixed_command(trim(prompt)) is None,
        contains_seq(lowercase(trim(prompt)), "system health"@),
    ensures
        ({
            let plan = plan_for(trim(prompt), lowercase(trim(prompt)));
            &&& plan.intent == TaskIntent::SystemHealth
            &&& plan.steps == seq![
                StepView { description: "Read host uptime"@, command: Some("uptime"@), safety: PlanStepSafety::Safe },
                StepView { description: "Check disk pressure"@, command: Some("df -h"@), safety: PlanStepSafety::Safe },
                StepView {
                    description: "Capture host kernel details"@,
                    command: Some("uname -a"@),
                    safety: PlanStepSafety::Safe,
                },
            ]
            &&& plan.warnings.len() == 0
        }),
{
}

/// A prompt with no explicit command that mentions `diagnostic` and not
/// `system health` gets the diagnostics checks, with no warning.
pub proof fn lemma_diagnostics_plan(prompt: Seq<char>)
    requires
        trim(prompt).len() > 0,
        prefixed_command(trim(prompt)) is None,
        !contains_seq(lowercase(trim(prompt)), "system health"@),
        contains_seq(lowercase(trim(prompt)), "diagnostic"@),
    ensures
        ({
            let plan = plan_for(trim(prompt), lowercase(trim(prompt)));
            &&& plan.intent == TaskIntent::Diagnostics
            &&& plan.steps == seq![
                StepView { description: "Read host uptime"@, command: Some("uptime"@), safety: PlanStepSafety::Safe },
                StepView {
                    description: "List top processes by CPU and memory"@,
                    command: Some("ps -eo pid,comm,%cpu,%mem"@),
                    safety: PlanStepSafety::Safe,
                },
                StepView {
                    description: "Capture filesystem usage"@,
                    command: Some("df -h"@),
                    safety: PlanStepSafety::Safe,
                },
            ]
            &&& plan.warnings.len() == 0
        }),
{
    lemma_no_check_health(lowercase(trim(prompt)));
}

/// A prompt with no explicit command and no health or diagnostics request
/// that is `git status` or mentions `show git status` gets the repository
/// checks, with no warning.
pub proof fn lemma_repo_status_plan(prompt: Seq<char>)
    requires
        trim(prompt).len() > 0,
        prefixed_command(trim(prompt)) is None,
        !contains_seq(lowercase(trim(prompt)), "system health"@),
        !contains_seq(lowercase(trim(prompt)), "diagnostic"@),
        lowercase(trim(prompt)) == "git status"@ || contains_seq(lowercase(trim(prompt)), "show git status"@),
    ensures
        ({
            let plan = plan_for(trim(prompt), lowercase(trim(prompt)));
            &&& plan.intent == TaskIntent::RepoStatus
            &&& plan.steps == seq![
                StepView {
                    description: "Inspect git branch and worktree status"@,
                    command: Some("git status --short --branch"@),
                    safety: PlanStepSafety::Safe,
                },
                StepView {
                    description: "Show current HEAD revision"@,
                    command: Some("git rev-parse --short HEAD"@),
                    safety: PlanStepSafety::Safe,
                },
            ]
            &&& plan.warnings.len() == 0
        }),
{
    lemma_no_longer_blocks(lowercase(trim(prompt)));
}

/// A prompt with no explicit command and none of the earlier requests that
/// mentions `list files` or `show files` gets the file listing, with no warning.
pub proof fn lemma_file_listing_plan(prompt: Seq<char>)
    requires
        trim(prompt).len() > 0,
        prefixed_command(trim(prompt)) is None,
        !contains_seq(lowercase(trim(prompt)), "system health"@),
        !contains_seq(lowercase(trim(prompt)), "diagnostic"@),
        lowercase(trim(prompt)) != "git status"@,
        !contains_seq(lowercase(trim(prompt)), "show git status"@),
        contains_seq(lowercase(trim(prompt)), "list files"@) || contains_seq(lowercase(trim(prompt)), "show files"@),
    ensures
        ({
            let plan = plan_for(trim(prompt), lowercase(trim(prompt)));
            &&& plan.intent == TaskIntent::FileInspection
            &&& plan.steps == seq![
                StepView {
                    description: "Print current working directory"@,
                    command: Some("pwd"@),
                    safety: PlanStepSafety::Safe,
                },
                StepView { description: "List files in current directory"@, command: Some("ls"@), safety: PlanStepSafety::Safe },
            ]
            &&& plan.warnings.len() == 0
        }),
{
    lemma_no_longer_blocks(lowercase(trim(prompt)));
}

proof fn lemma_no_check_health(n: Seq<char>)
    requires
        !contains_seq(n, "system health"@),
    ensures
        !contains_seq(n, "check system health"@),
{
    reveal_strlit("system health");
    reveal_strlit("check system health");
    let w = "check system health"@;
    if contains_seq(n, w) {
        let i = choose|i: int| 0 <= i && i + w.len() <= n.len() && #[trigger] n.subrange(i, i + w.len()) == w;
        let h = "system health"@;
        let j = i + 6;
        assert(w.subrange(6, 19) =~= h);
        assert(n.subrange(j, j + h.len()) =~= n.subrange(i, i + w.len()).subrange(6, 19));
        assert(n.subrange(j, j + h.len()) == h);
    }
}

proof fn lemma_no_longer_blocks(n: Seq<char>)
    requires
        !contains_seq(n, "system health"@),
        !contains_seq(n, "diagnostic"@),
    ensures
        !contains_seq(n, "check system health"@),
        !contains_seq(n, "diagnostics"@),
{
    lemma_no_check_health(n);
    reveal_strlit("diagnostic");
    reveal_strlit("diagnostics");
    let w = "diagnostics"@;
    if contains_seq(n, w) {
        let i = choose|i: int| 0 <= i && i + w.len() <= n.len() && #[trigger] n.subrange(i, i + w.len()) == w;
        let h = "diagnostic"@;
        assert(w.subrange(0, 10) =~= h);
        assert(n.subrange(i, i + h.len()) =~= n.subrange(i, i + w.len()).subrange(0, 10));
        assert(n.subrange(i, i + h.len()) == h);
    }
}

/// A prompt that matches no template, with no explicit command, whose first
/// word is an allowed program, is run as typed after review, with a warning.
/// One whose first word is not allowed gets guidance only.
pub proof fn lemma_fallback_plans(prompt: Seq<char>)
    requires
        trim(prompt).len() > 0,
        prefixed_command(trim(prompt)) is None,
        !contains_seq(lowercase(trim(prompt)), "system health"@),
        !contains_seq(lowercase(trim(prompt)), "diagnostic"@),
        lowercase(trim(prompt)) != "git status"@,
        !contains_seq(lowercase(trim(prompt)), "show git status"@),
        !contains_seq(lowercase(trim(prompt)), "list files"@),
        !contains_seq(lowercase(trim(prompt)), "show files"@),
    ensures
        ({
            let plan = plan_for(trim(prompt), lowercase(trim(prompt)));
            &&& allowed_program(words(trim(prompt))[0]) ==> {
                &&& plan.intent == TaskIntent::DirectCommand
                &&& plan.steps == seq![
                    StepView {
                        description: "Execute inferred command"@,
                        command: Some(trim(prompt)),
                        safety: PlanStepSafety::ReviewRequired,
                    },
                ]
                &&& plan.warnings == seq!["Command inferred from prompt text; review before execution."@]
            }
            &&& !allowed_program(words(trim(prompt))[0]) ==> {
                &&& plan.intent == TaskIntent::GuidanceOnly
                &&& plan.steps.len() == 0
                &&& plan.warnings == seq![
                    "No safe command template matched the prompt."@,
                    "Use `run: <command>` for explicit execution."@,
                ]
            }
        }),
{
    lemma_no_longer_blocks(lowercase(trim(prompt)));
    lemma_trim_ends_filled(prompt);
    lemma_words_nonempty(trim(prompt));
}

} // verus!
