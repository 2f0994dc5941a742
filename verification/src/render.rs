//! Text shown to the user: the agent's output and one-line run summaries.
use vstd::prelude::*;
use crate::model::{
    opt_str_view, AutopilotRunRecord, AutopilotSchedule, AutopilotState, CommandExecution, Provider,
};
use crate::number::{decimal, decimal_chars};
use crate::text::{
    append_chars, char_rows, chars_of, join, join_rows, pipe_newline_chars, pipe_newlines,
    split_chars, split_on, string_of, string_rows, trim, trim_chars,
};

verus! {

/// `ok` for a successful command, `failed` otherwise.
pub open spec fn status_word(success: bool) -> Seq<char> {
    if success {
        "ok"@
    } else {
        "failed"@
    }
}

/// The line showing one output stream, when it holds more than white space.
pub open spec fn stream_line(label: Seq<char>, text: Seq<char>) -> Seq<Seq<char>> {
    if trim(text).len() > 0 {
        seq![label + pipe_newlines(trim(text))]
    } else {
        seq![]
    }
}

/// The lines describing one executed command.
pub open spec fn command_lines(c: CommandExecution) -> Seq<Seq<char>> {
    seq!["- "@ + c.command@ + " ["@ + status_word(c.success) + "]"@] + stream_line(
        "  stdout: "@,
        c.stdout@,
    ) + stream_line("  stderr: "@, c.stderr@)
}

/// The lines of the executed-commands section.
pub open spec fn section_lines(cs: Seq<CommandExecution>) -> Seq<Seq<char>>
    decreases cs.len(),
{
    if cs.len() == 0 {
        seq!["Executed commands:"@]
    } else {
        section_lines(cs.drop_last()) + command_lines(cs.last())
    }
}

/// The executed-commands section.
pub open spec fn command_section(cs: Seq<CommandExecution>) -> Seq<char> {
    join(section_lines(cs), "\n"@)
}

fn word_for(success: bool) -> (r: Vec<char>)
    ensures
        r@ == status_word(success),
{
    if success {
        chars_of("ok")
    } else {
        chars_of("failed")
    }
}

fn push_stream_line(lines: &mut Vec<Vec<char>>, label: &str, text: &str)
    ensures
        char_rows(final(lines)@) == char_rows(old(lines)@) + stream_line(label@, text@),
{
    let t = trim_chars(&chars_of(text));
    if t.len() > 0 {
        let mut line = chars_of(label);
        append_chars(&mut line, &pipe_newline_chars(&t));
        let ghost before = char_rows(lines@);
        lines.push(line);
        assert(char_rows(lines@) =~= before + stream_line(label@, text@));
    } else {
        assert(char_rows(lines@) =~= char_rows(lines@) + stream_line(label@, text@));
    }
}

/// The executed-commands section: a heading, then for each command its text and
/// status, and its trimmed stdout and stderr on one line each when not blank.
pub fn format_command_section(commands: &[CommandExecution]) -> (r: String)
    ensures
        r@ == command_section(commands@),
{
    let mut lines: Vec<Vec<char>> = Vec::new();
    lines.push(chars_of("Executed commands:"));
    assert(char_rows(lines@) =~= section_lines(commands@.take(0)));
    let mut i: usize = 0;
    while i < commands.len()
        invariant
            i <= commands@.len(),
            char_rows(lines@) == section_lines(commands@.take(i as int)),
        decreases commands.len() - i,
    {
        let c = &commands[i];
        let mut head = chars_of("- ");
        append_chars(&mut head, &chars_of(c.command.as_str()));
        append_chars(&mut head, &chars_of(" ["));
        append_chars(&mut head, &word_for(c.success));
        append_chars(&mut head, &chars_of("]"));
        let ghost before = char_rows(lines@);
        lines.push(head);
        assert(char_rows(lines@) =~= before.push(head@));
        push_stream_line(&mut lines, "  stdout: ", c.stdout.as_str());
        push_stream_line(&mut lines, "  stderr: ", c.stderr.as_str());
        assert(commands@.take(i + 1).drop_last() =~= commands@.take(i as int));
        assert(char_rows(lines@) =~= section_lines(commands@.take(i + 1)));
        i = i + 1;
    }
    assert(commands@.take(commands@.len() as int) =~= commands@);
    string_of(&join_rows(&lines, &chars_of("\n")))
}

/// The sections of the agent's output: the executed commands, the provider's
/// summary and the warnings, each only when there is something to show.
pub open spec fn output_sections(
    cs: Seq<CommandExecution>,
    summary: Option<Seq<char>>,
    warnings: Seq<Seq<char>>,
) -> Seq<Seq<char>> {
    (if cs.len() > 0 {
        seq![command_section(cs)]
    } else {
        seq![]
    }) + (match summary {
        Some(s) => seq!["Provider summary:\n"@ + s],
        None => seq![],
    }) + (if warnings.len() > 0 {
        seq!["Warnings:\n- "@ + join(warnings, "\n- "@)]
    } else {
        seq![]
    })
}

/// The agent's output text: its sections separated by blank lines, or a note
/// that nothing was produced.
pub open spec fn rendered_output(
    cs: Seq<CommandExecution>,
    summary: Option<Seq<char>>,
    warnings: Seq<Seq<char>>,
) -> Seq<char> {
    let sections = output_sections(cs, summary, warnings);
    if sections.len() == 0 {
        "No output produced."@
    } else {
        join(sections, "\n\n"@)
    }
}

fn rows_of(items: &[String]) -> (r: Vec<Vec<char>>)
    ensures
        char_rows(r@) == string_rows(items@),
{
    let mut r: Vec<Vec<char>> = Vec::new();
    let mut i: usize = 0;
    while i < items.len()
        invariant
            i <= items@.len(),
            r@.len() == i,
            forall|k: int| 0 <= k < i ==> #[trigger] r@[k]@ == items@[k]@,
        decreases items.len() - i,
    {
        r.push(chars_of(items[i].as_str()));
        i = i + 1;
    }
    assert(char_rows(r@) =~= string_rows(items@));
    r
}

/// The agent's output for the executed commands, the provider summary and the warnings.
pub fn render_agent_output(
    commands: &[CommandExecution],
    provider_summary: Option<&str>,
    warnings: &[String],
) -> (r: String)
    ensures
        r@ == rendered_output(commands@, opt_str_view(provider_summary), string_rows(warnings@)),
{
    let mut sections: Vec<Vec<char>> = Vec::new();
    let ghost cs = commands@;
    let ghost ws = string_rows(warnings@);
    if commands.len() > 0 {
        sections.push(chars_of(format_command_section(commands).as_str()));
    }
    let ghost s1 = char_rows(sections@);
    assert(s1 =~= (if cs.len() > 0 { seq![command_section(cs)] } else { seq![] }));
    if let Some(summary) = provider_summary {
        let mut text = chars_of("Provider summary:\n");
        append_chars(&mut text, &chars_of(summary));
        sections.push(text);
    }
    let ghost s2 = char_rows(sections@);
    assert(s2 =~= s1 + (match opt_str_view(provider_summary) {
        Some(s) => seq!["Provider summary:\n"@ + s],
        None => seq![],
    }));
    if warnings.len() > 0 {
        let mut text = chars_of("Warnings:\n- ");
        append_chars(&mut text, &join_rows(&rows_of(warnings), &chars_of("\n- ")));
        sections.push(text);
    }
    assert(char_rows(sections@) =~= output_sections(cs, opt_str_view(provider_summary), ws));
    if sections.len() == 0 {
        "No output produced.".to_owned()
    } else {
        string_of(&join_rows(&sections, &chars_of("\n\n")))
    }
}

/// The first line of `lines` holding more than white space.
pub open spec fn first_filled(lines: Seq<Seq<char>>) -> Option<Seq<char>>
    decreases lines.len(),
{
    if lines.len() == 0 {
        None
    } else if trim(lines[0]).len() > 0 {
        Some(lines[0])
    } else {
        first_filled(lines.drop_first())
    }
}

/// A one-line summary of `value`: its first line that is not blank, trimmed,
/// or `completed`.
pub open spec fn summary_line(value: Seq<char>) -> Seq<char> {
    match first_filled(split_on(value, '\n')) {
        Some(line) => trim(line),
        None => "completed"@,
    }
}

proof fn lemma_first_filled_skip(lines: Seq<Seq<char>>, k: int)
    requires
        0 <= k <= lines.len(),
        forall|j: int| 0 <= j < k ==> trim(#[trigger] lines[j]).len() == 0,
    ensures
        first_filled(lines) == first_filled(lines.skip(k)),
    decreases k,
{
    if k > 0 {
        let t = lines.drop_first();
        assert forall|j: int| 0 <= j < k - 1 implies trim(#[trigger] t[j]).len() == 0 by {
            assert(t[j] == lines[j + 1]);
        }
        lemma_first_filled_skip(t, k - 1);
        assert(t.skip(k - 1) =~= lines.skip(k));
    } else {
        assert(lines.skip(0) =~= lines);
    }
}

/// The first line of `value` that is not blank, trimmed, or `completed`.
pub fn summarize_line(value: &str) -> (r: String)
    ensures
        r@ == summary_line(value@),
{
    let lines = split_chars(&chars_of(value), '\n');
    let ghost rows = char_rows(lines@);
    let mut i: usize = 0;
    while i < lines.len()
        invariant
            rows == char_rows(lines@),
            rows == split_on(value@, '\n'),
            i <= lines@.len(),
            forall|j: int| 0 <= j < i ==> trim(#[trigger] rows[j]).len() == 0,
        decreases lines.len() - i,
    {
        let t = trim_chars(&lines[i]);
        assert(rows[i as int] == lines@[i as int]@);
        if t.len() > 0 {
            proof {
                lemma_first_filled_skip(rows, i as int);
            }
            return string_of(&t);
        }
        i = i + 1;
    }
    proof {
        lemma_first_filled_skip(rows, rows.len() as int);
    }
    "completed".to_owned()
}

/// How many of the newest runs the autopilot's status shows.
pub const SHOWN_RUNS: usize = 5;

/// `true` or `false`.
pub open spec fn bool_text(b: bool) -> Seq<char> {
    if b {
        "true"@
    } else {
        "false"@
    }
}

/// The name a provider is shown under.
pub open spec fn provider_label(p: Provider) -> Seq<char> {
    match p {
        Provider::Anthropic => "Anthropic"@,
        Provider::OpenAi => "OpenAi"@,
        Provider::Gemini => "Gemini"@,
    }
}

/// What a schedule runs: its command when it has one, otherwise its prompt.
pub open spec fn schedule_target(s: AutopilotSchedule) -> Seq<char> {
    match s.command {
        Some(c) => c@,
        None => s.prompt@,
    }
}

/// The line that lists a schedule: its name, cron expression, whether it is
/// enabled, its provider (Anthropic when it names none) and its target.
pub open spec fn schedule_line(s: AutopilotSchedule) -> Seq<char> {
    s.name@ + " ("@ + s.cron@ + ") enabled="@ + bool_text(s.enabled) + " provider="@ + provider_label(
        match s.provider {
            Some(p) => p,
            None => Provider::Anthropic,
        },
    ) + " target="@ + schedule_target(s)
}

/// The line that shows a run: its schedule, its outcome and its summary.
pub open spec fn run_line(r: AutopilotRunRecord) -> Seq<char> {
    r.schedule_name@ + " ["@ + status_word(r.success) + "] "@ + r.summary@
}

/// The newest `limit` of `runs` (all of them when there are fewer), newest first.
pub open spec fn newest_first(runs: Seq<AutopilotRunRecord>, limit: nat) -> Seq<AutopilotRunRecord> {
    Seq::new(
        if runs.len() < limit {
            runs.len()
        } else {
            limit
        },
        |i: int| runs[runs.len() - 1 - i],
    )
}

/// The autopilot's status in one line: whether it runs, how many schedules it
/// counts and how many runs it keeps.
pub open spec fn status_text(s: AutopilotState) -> Seq<char> {
    "running="@ + bool_text(s.running) + " schedules="@ + decimal(s.schedule_count as nat)
        + " recent_runs="@ + decimal(s.recent_runs@.len())
}

fn bool_str(b: bool) -> (r: &'static str)
    ensures
        r@ == bool_text(b),
{
    if b {
        "true"
    } else {
        "false"
    }
}

fn provider_str(p: Provider) -> (r: &'static str)
    ensures
        r@ == provider_label(p),
{
    match p {
        Provider::Anthropic => "Anthropic",
        Provider::OpenAi => "OpenAi",
        Provider::Gemini => "Gemini",
    }
}

/// The line that lists `schedule`.
pub fn schedule_line_text(schedule: &AutopilotSchedule) -> (r: String)
    ensures
        r@ == schedule_line(*schedule),
{
    let mut r = schedule.name.clone();
    r.append(" (");
    r.append(schedule.cron.as_str());
    r.append(") enabled=");
    r.append(bool_str(schedule.enabled));
    r.append(" provider=");
    let p = match schedule.provider {
        Some(p) => p,
        None => Provider::Anthropic,
    };
    r.append(provider_str(p));
    r.append(" target=");
    match &schedule.command {
        Some(c) => r.append(c.as_str()),
        None => r.append(schedule.prompt.as_str()),
    }
    r
}

/// The line that shows `run`.
pub fn run_line_text(run: &AutopilotRunRecord) -> (r: String)
    ensures
        r@ == run_line(*run),
{
    let mut r = run.schedule_name.clone();
    r.append(" [");
    r.append(string_of(&word_for(run.success)).as_str());
    r.append("] ");
    r.append(run.summary.as_str());
    r
}

/// The lines of `schedules`, in order.
pub fn schedule_lines(schedules: &Vec<AutopilotSchedule>) -> (r: Vec<String>)
    ensures
        string_rows(r@) == schedules@.map_values(|s: AutopilotSchedule| schedule_line(s)),
{
    let mut r: Vec<String> = Vec::new();
    let mut i: usize = 0;
    while i < schedules.len()
        invariant
            i <= schedules.len(),
            r@.len() == i,
            forall|k: int| 0 <= k < i ==> #[trigger] r@[k]@ == schedule_line(schedules@[k]),
        decreases schedules.len() - i,
    {
        r.push(schedule_line_text(&schedules[i]));
        i = i + 1;
    }
    assert(string_rows(r@) =~= schedules@.map_values(|s: AutopilotSchedule| schedule_line(s)));
    r
}

/// The lines of the newest `limit` of `runs`, newest first.
pub fn newest_run_lines(runs: &Vec<AutopilotRunRecord>, limit: usize) -> (r: Vec<String>)
    ensures
        string_rows(r@) == newest_first(runs@, limit as nat).map_values(
            |x: AutopilotRunRecord| run_line(x),
        ),
{
    let n = runs.len();
    let count = if n < limit {
        n
    } else {
        limit
    };
    let mut r: Vec<String> = Vec::new();
    let mut i: usize = 0;
    while i < count
        invariant
            n == runs.len(),
            count <= n,
            count == (if n < limit { n } else { limit }),
            i <= count,
            r@.len() == i,
            forall|k: int| 0 <= k < i ==> #[trigger] r@[k]@ == run_line(runs@[n - 1 - k]),
        decreases count - i,
    {
        r.push(run_line_text(&runs[n - 1 - i]));
        i = i + 1;
    }
    assert(string_rows(r@) =~= newest_first(runs@, limit as nat).map_values(
        |x: AutopilotRunRecord| run_line(x),
    ));
    r
}

/// The autopilot's status line for `state`.
pub fn status_line(state: &AutopilotState) -> (r: String)
    ensures
        r@ == status_text(*state),
{
    let mut r = "running=".to_owned();
    r.append(bool_str(state.running));
    r.append(" schedules=");
    r.append(string_of(&decimal_chars(state.schedule_count as u64)).as_str());
    r.append(" recent_runs=");
    r.append(string_of(&decimal_chars(state.recent_runs.len() as u64)).as_str());
    r
}

} // verus!
