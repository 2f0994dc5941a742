//! Checking, routing and recording the commands the agent runs.
use vstd::prelude::*;
use crate::clock::now_utc;
use crate::error::{ApiError, ApiErrorView};
use crate::model::{opt_view, CommandExecution, RemoteConfig};
use crate::model::{PlanStepSafety, TaskIntent};
use crate::planner::{allowed_program, is_allowed_program, lemma_allowlist, plan_for};
use crate::number::{decimal, decimal_chars};
use crate::text::{
    append_chars, chars_of, lemma_trim_ends_filled, lemma_words_nonempty, lossy_text, lowercase, trim, split_words, string_of, string_rows,
    clip, clipped, utf8_lossy, words, char_rows,
};

verus! {

/// Whether `c` is a shell operator that commands may not hold.
pub open spec fn is_shell_operator(c: char) -> bool {
    c == '|' || c == '&' || c == ';' || c == '>' || c == '<' || c == '`'
}

/// Whether `s` holds a shell operator.
pub open spec fn has_shell_operator(s: Seq<char>) -> bool {
    exists|i: int| 0 <= i < s.len() && is_shell_operator(#[trigger] s[i])
}

/// Why `command` may not run, if it may not: it holds a shell operator, it is
/// empty, or its program is not on the allowlist.
pub open spec fn command_refusal(command: Seq<char>) -> Option<ApiErrorView> {
    if has_shell_operator(command) {
        Some(ApiErrorView::UnsafeOperator { command })
    } else if words(command).len() == 0 {
        Some(ApiErrorView::EmptyCommand)
    } else if !allowed_program(words(command)[0]) {
        Some(ApiErrorView::NotAllowed { program: words(command)[0] })
    } else {
        None
    }
}

fn find_shell_operator(v: &Vec<char>) -> (r: bool)
    ensures
        r == has_shell_operator(v@),
{
    let mut i: usize = 0;
    while i < v.len()
        invariant
            i <= v.len(),
            forall|k: int| 0 <= k < i ==> !is_shell_operator(#[trigger] v@[k]),
        decreases v.len() - i,
    {
        let c = v[i];
        if c == '|' || c == '&' || c == ';' || c == '>' || c == '<' || c == '`' {
            assert(is_shell_operator(v@[i as int]));
            return true;
        }
        i = i + 1;
    }
    false
}

fn strings_of(rows: &Vec<Vec<char>>) -> (r: Vec<String>)
    ensures
        string_rows(r@) == char_rows(rows@),
{
    let mut r: Vec<String> = Vec::new();
    let mut i: usize = 0;
    while i < rows.len()
        invariant
            i <= rows.len(),
            r@.len() == i,
            forall|k: int| 0 <= k < i ==> #[trigger] r@[k]@ == rows@[k]@,
        decreases rows.len() - i,
    {
        r.push(string_of(&rows[i]));
        i = i + 1;
    }
    assert(string_rows(r@) =~= char_rows(rows@));
    r
}

/// The words of `command`; an empty command is refused.
pub fn split_command(command: &str) -> (r: Result<Vec<String>, ApiError>)
    ensures
        match r {
            Ok(parts) => string_rows(parts@) == words(command@) && parts@.len() > 0,
            Err(e) => words(command@).len() == 0 && e@ == ApiErrorView::EmptyCommand,
        },
{
    let parts = split_words(&chars_of(command));
    if parts.len() == 0 {
        return Err(ApiError::EmptyCommand);
    }
    let r = strings_of(&parts);
    assert(string_rows(r@).len() == r@.len());
    assert(char_rows(parts@).len() == parts@.len());
    Ok(r)
}

/// Checks that `command` holds no shell operator and runs an allowed program.
pub fn validate_command(command: &str) -> (r: Result<(), ApiError>)
    ensures
        match r {
            Ok(()) => command_refusal(command@) is None,
            Err(e) => command_refusal(command@) == Some(e@),
        },
{
    let cs = chars_of(command);
    if find_shell_operator(&cs) {
        return Err(ApiError::UnsafeOperator { command: command.to_owned() });
    }
    let args = split_command(command)?;
    let program = &args[0];
    assert(program@ == words(command@)[0]);
    if !is_allowed_program(program.as_str()) {
        return Err(ApiError::NotAllowed { program: program.clone() });
    }
    Ok(())
}

/// A command the planner infers from a prompt always names an allowed
/// program: checking it can only find a shell operator in it.
pub proof fn lemma_inferred_command_is_allowed(prompt: Seq<char>)
    requires
        plan_for(trim(prompt), lowercase(trim(prompt))).intent == TaskIntent::DirectCommand,
        plan_for(trim(prompt), lowercase(trim(prompt))).steps[0].safety
            == PlanStepSafety::ReviewRequired,
    ensures
        plan_for(trim(prompt), lowercase(trim(prompt))).steps[0].command == Some(trim(prompt)),
        command_refusal(trim(prompt)) is None || command_refusal(trim(prompt)) == Some(
            ApiErrorView::UnsafeOperator { command: trim(prompt) },
        ),
{
    let t = trim(prompt);
    lemma_trim_ends_filled(prompt);
    if t.len() > 0 {
        lemma_words_nonempty(t);
    }
}

/// How a checked command is to be run.
#[derive(Debug, Clone)]
pub enum CommandRoute {
    /// Run the program on this host with the given arguments.
    Local { program: String, args: Vec<String> },
    /// Send the command to the remote execute endpoint, with `retries` further
    /// attempts after a failed one.
    Remote { endpoint: String, auth_token: Option<String>, retries: u32, timeout_secs: u64 },
}

/// The number of attempts a remote call gets: one more than the retries, at most `u32::MAX`.
pub open spec fn attempts_for(retries: u32) -> nat {
    if retries == u32::MAX {
        u32::MAX as nat
    } else {
        (retries + 1) as nat
    }
}

/// Decides how `command` runs under `remote`: remotely when remote mode is on
/// (which needs an execute endpoint), locally otherwise; either way the command
/// must pass [`validate_command`].
pub fn route_command(command: &str, remote: &RemoteConfig) -> (r: Result<CommandRoute, ApiError>)
    ensures
        remote.enabled && remote.execute_endpoint is None ==> (r matches Err(e)
            && e@ == ApiErrorView::MissingExecuteEndpoint),
        !(remote.enabled && remote.execute_endpoint is None) ==> match r {
            Err(e) => command_refusal(command@) == Some(e@),
            Ok(route) => command_refusal(command@) is None && match route {
                CommandRoute::Local { program, args } => !remote.enabled && program@ == words(
                    command@,
                )[0] && string_rows(args@) == words(command@).skip(1),
                CommandRoute::Remote { endpoint, auth_token, retries, timeout_secs } => remote.enabled
                    && Some(endpoint@) == opt_view(remote.execute_endpoint) && opt_view(auth_token)
                    == opt_view(remote.auth_token) && retries == remote.retries
                    && timeout_secs == remote.timeout_secs,
            },
        },
{
    if remote.enabled {
        let endpoint = match &remote.execute_endpoint {
            Some(e) => e.clone(),
            None => return Err(ApiError::MissingExecuteEndpoint),
        };
        validate_command(command)?;
        return Ok(
            CommandRoute::Remote {
                endpoint,
                auth_token: remote.auth_token.clone(),
                retries: remote.retries,
                timeout_secs: remote.timeout_secs,
            },
        );
    }
    validate_command(command)?;
    let args = split_command(command)?;
    let program = args[0].clone();
    let mut rest: Vec<String> = Vec::new();
    let mut i: usize = 1;
    while i < args.len()
        invariant
            1 <= i <= args.len(),
            rest@.len() == i - 1,
            forall|k: int| 0 <= k < i - 1 ==> #[trigger] rest@[k]@ == args@[k + 1]@,
        decreases args.len() - i,
    {
        rest.push(args[i].clone());
        i = i + 1;
    }
    assert(string_rows(rest@) =~= words(command@).skip(1)) by {
        assert(string_rows(args@) == words(command@));
        assert forall|k: int| 0 <= k < rest@.len() implies string_rows(rest@)[k] == words(
            command@,
        ).skip(1)[k] by {
            assert(string_rows(args@)[k + 1] == args@[k + 1]@);
        }
    }
    Ok(CommandRoute::Local { program, args: rest })
}


/// The most bytes of a command's stdout or stderr that are kept.
pub const OUTPUT_LIMIT: usize = 4000;

/// How long a local command may run, in seconds.
pub const COMMAND_TIMEOUT_SECS: u64 = 60;

/// Decodes captured output and shortens it to [`OUTPUT_LIMIT`] bytes.
fn capture_text(bytes: &[u8]) -> (r: String)
    ensures
        r@ == clipped(lossy_text(bytes@), OUTPUT_LIMIT as nat),
{
    let text = utf8_lossy(bytes);
    clip(text.as_str(), OUTPUT_LIMIT)
}

/// Records a finished local command: its exit code (`-1` when it has none), its
/// stdout and stderr decoded and cut to whole characters within
/// [`OUTPUT_LIMIT`] bytes, and the current time.
pub fn capture_execution(
    command: &str,
    exit_code: Option<i32>,
    stdout: &[u8],
    stderr: &[u8],
    success: bool,
) -> (r: CommandExecution)
    ensures
        r.command@ == command@,
        r.exit_code == (match exit_code {
            Some(c) => c,
            None => -1i32,
        }),
        r.stdout@ == clipped(lossy_text(stdout@), OUTPUT_LIMIT as nat),
        r.stderr@ == clipped(lossy_text(stderr@), OUTPUT_LIMIT as nat),
        r.success == success,
        r.executed_at.wf(),
{
    let out = capture_text(stdout);
    let err = capture_text(stderr);
    let code = match exit_code {
        Some(c) => c,
        None => -1,
    };
    CommandExecution {
        command: command.to_owned(),
        exit_code: code,
        stdout: out,
        stderr: err,
        success,
        executed_at: now_utc(),
    }
}

/// The fields of a remote service's JSON reply that the agent reads.
#[derive(Debug, Clone)]
pub struct RemoteReply {
    /// The HTTP status code.
    pub status: u16,
    /// The `error` field, when it is a string.
    pub error: Option<String>,
    /// The `exit_code` field, when it is an integer.
    pub exit_code: Option<i64>,
    /// The `stdout` field, when it is a string.
    pub stdout: Option<String>,
    /// The `stderr` field, when it is a string.
    pub stderr: Option<String>,
    /// The `success` field, when it is a boolean.
    pub success: Option<bool>,
}

/// The HTTP status code of a successful reply.
pub const HTTP_OK: u16 = 200;

/// The text `o` holds, or `fallback` when it holds none.
pub open spec fn text_or(o: Option<Seq<char>>, fallback: Seq<char>) -> Seq<char> {
    match o {
        Some(t) => t,
        None => fallback,
    }
}

/// The error for a refused reply: the reply's own `error` text, or `fallback`.
fn refusal(error: &Option<String>, fallback: &str) -> (r: ApiError)
    ensures
        r@ == (ApiErrorView::Remote { message: text_or(opt_view(*error), fallback@) }),
{
    match error {
        Some(m) => ApiError::Remote { message: m.clone() },
        None => ApiError::Remote { message: fallback.to_owned() },
    }
}

/// The command record built from a remote execute reply: a reply other than
/// 200 OK is an error carrying the reply's `error` text (or a fallback), and a
/// 200 OK reply gives its fields, with `-1`, empty output and failure for
/// missing ones; the exit code keeps its low 32 bits.
pub fn execution_from_reply(command: &str, reply: &RemoteReply) -> (r: Result<CommandExecution, ApiError>)
    ensures
        reply.status != HTTP_OK ==> (r matches Err(e) && e@ == (ApiErrorView::Remote {
            message: text_or(opt_view(reply.error), "remote execution error"@),
        })),
        reply.status == HTTP_OK ==> (r matches Ok(x) && {
            &&& x.command@ == command@
            &&& x.exit_code == (match reply.exit_code {
                Some(c) => c,
                None => -1i64,
            }) as i32
            &&& x.stdout@ == text_or(opt_view(reply.stdout), Seq::empty())
            &&& x.stderr@ == text_or(opt_view(reply.stderr), Seq::empty())
            &&& x.success == (match reply.success {
                Some(b) => b,
                None => false,
            })
            &&& x.executed_at.wf()
        }),
{
    if reply.status != HTTP_OK {
        return Err(refusal(&reply.error, "remote execution error"));
    }
    let code: i64 = match reply.exit_code {
        Some(c) => c,
        None => -1,
    };
    let stdout = match &reply.stdout {
        Some(t) => t.clone(),
        None => String::new(),
    };
    let stderr = match &reply.stderr {
        Some(t) => t.clone(),
        None => String::new(),
    };
    let success = match reply.success {
        Some(b) => b,
        None => false,
    };
    Ok(
        CommandExecution {
            command: command.to_owned(),
            exit_code: code as i32,
            stdout,
            stderr,
            success,
            executed_at: now_utc(),
        },
    )
}

/// Checks a remote status reply: anything but 200 OK is an error carrying the
/// reply's `error` text, or `"remote status request failed"`.
pub fn check_status_reply(status: u16, error: &Option<String>) -> (r: Result<(), ApiError>)
    ensures
        status == HTTP_OK <==> r is Ok,
        r matches Err(e) ==> e@ == (ApiErrorView::Remote {
            message: text_or(opt_view(*error), "remote status request failed"@),
        }),
{
    if status != HTTP_OK {
        return Err(refusal(error, "remote status request failed"));
    }
    Ok(())
}

/// The status endpoint of an enabled remote configuration.
pub fn status_endpoint(remote: &RemoteConfig) -> (r: Result<String, ApiError>)
    ensures
        match r {
            Ok(e) => Some(e@) == opt_view(remote.status_endpoint),
            Err(e) => remote.status_endpoint is None && e@ == ApiErrorView::MissingStatusEndpoint,
        },
{
    match &remote.status_endpoint {
        Some(e) => Ok(e.clone()),
        None => Err(ApiError::MissingStatusEndpoint),
    }
}


/// The remote call that is being tried.
#[derive(Debug, Clone, Copy, PartialEq, Eq, Structural)]
pub enum RemoteOperation {
    Execute,
    Status,
}

/// The words naming a remote call in its error texts.
pub open spec fn operation_name(op: RemoteOperation) -> Seq<char> {
    match op {
        RemoteOperation::Execute => "remote execute"@,
        RemoteOperation::Status => "remote status"@,
    }
}

/// The error text when every attempt ended without a recorded failure.
pub open spec fn exhausted_text(op: RemoteOperation) -> Seq<char> {
    match op {
        RemoteOperation::Execute => "remote execute failed"@,
        RemoteOperation::Status => "remote status request failed"@,
    }
}

/// The attempts left for a remote call and the last failure seen.
#[derive(Debug, Clone)]
pub struct RemoteAttempts {
    pub operation: RemoteOperation,
    pub remaining: u32,
    pub last_error: Option<String>,
}

fn operation_words(op: RemoteOperation) -> (r: Vec<char>)
    ensures
        r@ == operation_name(op),
{
    match op {
        RemoteOperation::Execute => chars_of("remote execute"),
        RemoteOperation::Status => chars_of("remote status"),
    }
}

impl RemoteAttempts {
    /// One attempt plus `retries` more, with no failure seen yet.
    pub fn new(operation: RemoteOperation, retries: u32) -> (r: RemoteAttempts)
        ensures
            r.operation == operation,
            r.remaining == attempts_for(retries),
            r.last_error is None,
    {
        RemoteAttempts { operation, remaining: retries.saturating_add(1), last_error: None }
    }

    /// Takes one attempt if any is left.
    pub fn start_attempt(&mut self) -> (go: bool)
        ensures
            go == (old(self).remaining > 0),
            final(self).remaining == (if go { old(self).remaining - 1 } else { 0 }),
            final(self).operation == old(self).operation,
            final(self).last_error == old(self).last_error,
    {
        if self.remaining == 0 {
            false
        } else {
            self.remaining = self.remaining - 1;
            true
        }
    }

    /// Records a request that failed with the transport error text `detail`.
    pub fn request_failed(&mut self, detail: &str)
        ensures
            final(self).operation == old(self).operation,
            final(self).remaining == old(self).remaining,
            opt_view(final(self).last_error) == Some(
                operation_name(old(self).operation) + " request failed: "@ + detail@,
            ),
    {
        let mut v = operation_words(self.operation);
        append_chars(&mut v, &chars_of(" request failed: "));
        append_chars(&mut v, &chars_of(detail));
        self.last_error = Some(string_of(&v));
    }

    /// Records a request that got no reply within `timeout_secs` seconds.
    pub fn timed_out(&mut self, timeout_secs: u64)
        ensures
            final(self).operation == old(self).operation,
            final(self).remaining == old(self).remaining,
            opt_view(final(self).last_error) == Some(
                operation_name(old(self).operation) + " timed out after "@ + decimal(
                    timeout_secs as nat,
                ) + "s"@,
            ),
    {
        let mut v = operation_words(self.operation);
        append_chars(&mut v, &chars_of(" timed out after "));
        append_chars(&mut v, &decimal_chars(timeout_secs));
        append_chars(&mut v, &chars_of("s"));
        self.last_error = Some(string_of(&v));
    }

    /// The error once no attempt succeeded: the last failure, or a general text.
    pub fn into_error(self) -> (e: ApiError)
        ensures
            e@ == (ApiErrorView::Remote {
                message: text_or(opt_view(self.last_error), exhausted_text(self.operation)),
            }),
    {
        match self.last_error {
            Some(m) => ApiError::Remote { message: m },
            None => match self.operation {
                RemoteOperation::Execute => ApiError::Remote { message: "remote execute failed".to_owned() },
                RemoteOperation::Status => ApiError::Remote {
                    message: "remote status request failed".to_owned(),
                },
            },
        }
    }
}

/// A command is refused exactly when it holds one of the characters
/// `| & ; > < `` ` ``, is empty, or starts with a program off the allowlist;
/// an operator is reported first, and an empty command before an unknown
/// program.
pub proof fn lemma_command_refusal(command: Seq<char>)
    ensures
        (exists|i: int|
            0 <= i < command.len() && (#[trigger] command[i] == '|' || command[i] == '&' || command[i]
                == ';' || command[i] == '>' || command[i] == '<' || command[i] == '`'))
            ==> command_refusal(command) == Some(ApiErrorView::UnsafeOperator { command }),
        (forall|i: int|
            0 <= i < command.len() ==> !(#[trigger] command[i] == '|' || command[i] == '&' || command[i]
                == ';' || command[i] == '>' || command[i] == '<' || command[i] == '`')) ==> {
            &&& words(command).len() == 0 ==> command_refusal(command) == Some(ApiErrorView::EmptyCommand)
            &&& words(command).len() > 0 && set![
                "pwd"@, "ls"@, "echo"@, "cat"@, "head"@, "tail"@, "grep"@, "rg"@, "find"@, "git"@,
                "cargo"@, "kubectl"@, "docker"@, "terraform"@, "uptime"@, "uname"@, "whoami"@,
                "date"@, "df"@, "free"@, "ps"@,
            ].contains(words(command)[0]) ==> command_refusal(command) is None
            &&& words(command).len() > 0 && !set![
                "pwd"@, "ls"@, "echo"@, "cat"@, "head"@, "tail"@, "grep"@, "rg"@, "find"@, "git"@,
                "cargo"@, "kubectl"@, "docker"@, "terraform"@, "uptime"@, "uname"@, "whoami"@,
                "date"@, "df"@, "free"@, "ps"@,
            ].contains(words(command)[0]) ==> command_refusal(command) == Some(
                ApiErrorView::NotAllowed { program: words(command)[0] },
            )
        },
{
    if words(command).len() > 0 {
        lemma_allowlist(words(command)[0]);
    }
    if exists|i: int|
        0 <= i < command.len() && (#[trigger] command[i] == '|' || command[i] == '&' || command[i]
            == ';' || command[i] == '>' || command[i] == '<' || command[i] == '`') {
        let i = choose|i: int|
            0 <= i < command.len() && (#[trigger] command[i] == '|' || command[i] == '&' || command[i]
                == ';' || command[i] == '>' || command[i] == '<' || command[i] == '`');
        assert(is_shell_operator(command[i]));
    }
}

} // verus!
