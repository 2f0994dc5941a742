//! Errors of the agent, the command checks and the autopilot.
use vstd::prelude::*;
use crate::number::{decimal, decimal_chars};
use crate::text::{append_chars, chars_of, string_of};

verus! {

/// Why an operation was refused or failed.
#[derive(Debug, Clone)]
pub enum ApiError {
    /// The command holds no word.
    EmptyCommand,
    /// The command holds a shell operator.
    UnsafeOperator { command: String },
    /// The command's program is not on the allowlist.
    NotAllowed { program: String },
    /// A local command ran past its time limit.
    CommandTimedOut { command: String },
    /// Remote mode is on but no execute endpoint is set.
    MissingExecuteEndpoint,
    /// Remote mode is on but no status endpoint is set.
    MissingStatusEndpoint,
    /// The remote service refused or could not be reached.
    Remote { message: String },
    /// A cron expression without exactly five fields.
    CronFieldCount { expression: String },
    /// A `*/step` cron field whose step is not a number.
    InvalidCronStep,
    /// A cron field value that is not a number.
    InvalidCronValue { candidate: String },
    /// The daemon's pid file does not hold a pid.
    InvalidPidFile,
    /// A live daemon already holds the pid file.
    DaemonAlreadyRunning { pid: u32 },
    /// A heartbeat from a process that does not own the daemon.
    HeartbeatRejected,
}

/// The view of an [`ApiError`], its texts as character sequences.
pub enum ApiErrorView {
    EmptyCommand,
    UnsafeOperator { command: Seq<char> },
    NotAllowed { program: Seq<char> },
    CommandTimedOut { command: Seq<char> },
    MissingExecuteEndpoint,
    MissingStatusEndpoint,
    Remote { message: Seq<char> },
    CronFieldCount { expression: Seq<char> },
    InvalidCronStep,
    InvalidCronValue { candidate: Seq<char> },
    InvalidPidFile,
    DaemonAlreadyRunning { pid: u32 },
    HeartbeatRejected,
}

impl View for ApiError {
    type V = ApiErrorView;

    open spec fn view(&self) -> ApiErrorView {
        match self {
            ApiError::EmptyCommand => ApiErrorView::EmptyCommand,
            ApiError::UnsafeOperator { command } => ApiErrorView::UnsafeOperator { command: command@ },
            ApiError::NotAllowed { program } => ApiErrorView::NotAllowed { program: program@ },
            ApiError::CommandTimedOut { command } => ApiErrorView::CommandTimedOut { command: command@ },
            ApiError::MissingExecuteEndpoint => ApiErrorView::MissingExecuteEndpoint,
            ApiError::MissingStatusEndpoint => ApiErrorView::MissingStatusEndpoint,
            ApiError::Remote { message } => ApiErrorView::Remote { message: message@ },
            ApiError::CronFieldCount { expression } => ApiErrorView::CronFieldCount {
                expression: expression@,
            },
            ApiError::InvalidCronStep => ApiErrorView::InvalidCronStep,
            ApiError::InvalidCronValue { candidate } => ApiErrorView::InvalidCronValue {
                candidate: candidate@,
            },
            ApiError::InvalidPidFile => ApiErrorView::InvalidPidFile,
            ApiError::DaemonAlreadyRunning { pid } => ApiErrorView::DaemonAlreadyRunning { pid: *pid },
            ApiError::HeartbeatRejected => ApiErrorView::HeartbeatRejected,
        }
    }
}

/// The human-readable text of an error.
pub open spec fn error_text(e: ApiErrorView) -> Seq<char> {
    match e {
        ApiErrorView::EmptyCommand => "command cannot be empty"@,
        ApiErrorView::UnsafeOperator { command } => "unsafe shell operator rejected in command: "@
            + command,
        ApiErrorView::NotAllowed { program } => "command is not allowed: "@ + program,
        ApiErrorView::CommandTimedOut { command } => "command timed out after 60 seconds: "@ + command,
        ApiErrorView::MissingExecuteEndpoint => "remote mode enabled but execute_endpoint is not configured"@,
        ApiErrorView::MissingStatusEndpoint => "remote mode enabled but status_endpoint is not configured"@,
        ApiErrorView::Remote { message } => message,
        ApiErrorView::CronFieldCount { expression } => "cron expression must have 5 fields: "@
            + expression,
        ApiErrorView::InvalidCronStep => "invalid cron step"@,
        ApiErrorView::InvalidCronValue { candidate } => "invalid cron value: "@ + candidate,
        ApiErrorView::InvalidPidFile => "autopilot pid file is invalid"@,
        ApiErrorView::DaemonAlreadyRunning { pid } => "autopilot daemon already running with pid "@
            + decimal(pid as nat),
        ApiErrorView::HeartbeatRejected => "daemon heartbeat rejected for non-owner pid"@,
    }
}

fn text_after(lead: &str, tail: &str) -> (r: String)
    ensures
        r@ == lead@ + tail@,
{
    let mut s = lead.to_owned();
    s.append(tail);
    s
}

impl ApiError {
    /// The human-readable text of this error.
    pub fn message(&self) -> (r: String)
        ensures
            r@ == error_text(self@),
    {
        match self {
            ApiError::EmptyCommand => "command cannot be empty".to_owned(),
            ApiError::UnsafeOperator { command } => text_after(
                "unsafe shell operator rejected in command: ",
                command.as_str(),
            ),
            ApiError::NotAllowed { program } => text_after("command is not allowed: ", program.as_str()),
            ApiError::CommandTimedOut { command } => text_after(
                "command timed out after 60 seconds: ",
                command.as_str(),
            ),
            ApiError::MissingExecuteEndpoint => "remote mode enabled but execute_endpoint is not configured".to_owned(),
            ApiError::MissingStatusEndpoint => "remote mode enabled but status_endpoint is not configured".to_owned(),
            ApiError::Remote { message } => message.clone(),
            ApiError::CronFieldCount { expression } => text_after(
                "cron expression must have 5 fields: ",
                expression.as_str(),
            ),
            ApiError::InvalidCronStep => "invalid cron step".to_owned(),
            ApiError::InvalidCronValue { candidate } => text_after(
                "invalid cron value: ",
                candidate.as_str(),
            ),
            ApiError::InvalidPidFile => "autopilot pid file is invalid".to_owned(),
            ApiError::DaemonAlreadyRunning { pid } => {
                let mut v = chars_of("autopilot daemon already running with pid ");
                append_chars(&mut v, &decimal_chars(*pid as u64));
                string_of(&v)
            },
            ApiError::HeartbeatRejected => "daemon heartbeat rejected for non-owner pid".to_owned(),
        }
    }
}

} // verus!
