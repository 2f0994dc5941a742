//! Decisions of the command-line front end.
use vstd::prelude::*;
use crate::model::ExecutionMode;
use crate::text::{chars_of, string_of, trim, trim_chars};

verus! {

/// Why the command line was refused.
#[derive(Debug, Clone, Copy, PartialEq, Eq, Structural)]
pub enum CliError {
    /// Both `--interactive` and `--async` were given.
    ConflictingModes,
    /// No prompt was passed and the standard input held none.
    MissingPrompt,
    /// Asynchronous mode was asked for without `--prompt`.
    AsyncNeedsPrompt,
}

/// The text of a [`CliError`].
pub open spec fn cli_error_text(e: CliError) -> Seq<char> {
    match e {
        CliError::ConflictingModes => "Use only one mode: --interactive or --async"@,
        CliError::MissingPrompt => "No prompt provided. Pass --prompt or pipe input to stdin."@,
        CliError::AsyncNeedsPrompt => "--prompt is required in async mode"@,
    }
}

impl CliError {
    /// The text of this error.
    pub fn message(&self) -> (r: String)
        ensures
            r@ == cli_error_text(*self),
    {
        match self {
            CliError::ConflictingModes => "Use only one mode: --interactive or --async".to_owned(),
            CliError::MissingPrompt => "No prompt provided. Pass --prompt or pipe input to stdin.".to_owned(),
            CliError::AsyncNeedsPrompt => "--prompt is required in async mode".to_owned(),
        }
    }
}

/// The execution mode the flags ask for: asynchronous with `--async`,
/// interactive otherwise; both flags together are refused.
pub fn resolve_mode(interactive: bool, async_mode: bool) -> (r: Result<ExecutionMode, CliError>)
    ensures
        interactive && async_mode ==> r == Err::<ExecutionMode, CliError>(CliError::ConflictingModes),
        !(interactive && async_mode) ==> r == Ok::<ExecutionMode, CliError>(
            if async_mode { ExecutionMode::Async } else { ExecutionMode::Interactive },
        ),
{
    if interactive && async_mode {
        return Err(CliError::ConflictingModes);
    }
    if async_mode {
        Ok(ExecutionMode::Async)
    } else {
        Ok(ExecutionMode::Interactive)
    }
}

/// Where the prompt comes from.
#[derive(Debug, Clone)]
pub enum PromptSource {
    /// The prompt given with `--prompt`.
    Given(String),
    /// The prompt is read from the standard input.
    Stdin,
}

/// Where the prompt for `mode` comes from: the given one, else the standard
/// input in interactive mode; asynchronous mode needs a given prompt.
pub fn prompt_source(mode: ExecutionMode, prompt: Option<String>) -> (r: Result<PromptSource, CliError>)
    ensures
        match prompt {
            Some(p) => r matches Ok(PromptSource::Given(q)) && q == p,
            None => if mode == ExecutionMode::Interactive {
                r matches Ok(PromptSource::Stdin)
            } else {
                r == Err::<PromptSource, CliError>(CliError::AsyncNeedsPrompt)
            },
        },
{
    match prompt {
        Some(p) => Ok(PromptSource::Given(p)),
        None => if mode == ExecutionMode::Interactive {
            Ok(PromptSource::Stdin)
        } else {
            Err(CliError::AsyncNeedsPrompt)
        },
    }
}

/// The prompt read from the standard input: its trimmed text, which must not be empty.
pub fn prompt_from_input(buffer: &str) -> (r: Result<String, CliError>)
    ensures
        trim(buffer@).len() == 0 ==> r == Err::<String, CliError>(CliError::MissingPrompt),
        trim(buffer@).len() > 0 ==> (r matches Ok(p) && p@ == trim(buffer@)),
{
    let t = trim_chars(&chars_of(buffer));
    if t.len() == 0 {
        Err(CliError::MissingPrompt)
    } else {
        Ok(string_of(&t))
    }
}

} // verus!
