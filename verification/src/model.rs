//! The data the agent and the autopilot work on.
use vstd::prelude::*;
use crate::text::{chars_of, lowercase, same_chars, to_lowercase};

verus! {

/// The view of an optional string.
pub open spec fn opt_view(o: Option<String>) -> Option<Seq<char>> {
    match o {
        Some(s) => Some(s@),
        None => None,
    }
}

/// A language-model provider.
#[derive(Debug, Clone, Copy, PartialEq, Eq, Hash, Structural)]
pub enum Provider {
    Anthropic,
    OpenAi,
    Gemini,
}

/// How an agent request is run.
#[derive(Debug, Clone, Copy, PartialEq, Eq, Structural)]
pub enum ExecutionMode {
    Interactive,
    Async,
}

/// A prompt for the agent.
#[derive(Debug, Clone)]
pub struct AgentRequest {
    pub prompt: String,
    pub provider: Provider,
    pub mode: ExecutionMode,
}

/// A moment in UTC, held as its calendar fields.
#[derive(Debug, Clone, Copy, PartialEq, Eq, Structural)]
pub struct UtcTime {
    pub year: i32,
    /// 1 to 12.
    pub month: u32,
    /// 1 to 31.
    pub day: u32,
    /// 0 to 23.
    pub hour: u32,
    /// 0 to 59.
    pub minute: u32,
    /// 0 to 59.
    pub second: u32,
    /// Below 2_000_000_000 (a leap second runs past 1_000_000_000).
    pub nanosecond: u32,
    /// Days since Sunday, 0 to 6.
    pub weekday: u32,
}

impl UtcTime {
    /// Whether every field lies in its calendar range.
    pub open spec fn wf(self) -> bool {
        &&& 1 <= self.month <= 12
        &&& 1 <= self.day <= 31
        &&& self.hour < 24
        &&& self.minute < 60
        &&& self.second < 60
        &&& self.nanosecond < 2_000_000_000
        &&& self.weekday < 7
    }

    /// Whether `self` and `other` fall in the same calendar minute.
    pub open spec fn same_minute(self, other: UtcTime) -> bool {
        &&& self.year == other.year
        &&& self.month == other.month
        &&& self.day == other.day
        &&& self.hour == other.hour
        &&& self.minute == other.minute
    }

    /// Whether `self` and `other` fall in the same calendar minute.
    pub fn is_same_minute(&self, other: &UtcTime) -> (r: bool)
        ensures
            r == self.same_minute(*other),
    {
        self.year == other.year && self.month == other.month && self.day == other.day
            && self.hour == other.hour && self.minute == other.minute
    }
}

/// The result of running one command.
#[derive(Debug, Clone)]
pub struct CommandExecution {
    pub command: String,
    pub exit_code: i32,
    pub stdout: String,
    pub stderr: String,
    pub success: bool,
    pub executed_at: UtcTime,
}

/// Stored credentials: a shared key and optional provider-specific keys.
#[derive(Debug, Clone)]
pub struct AuthConfig {
    pub api_key: Option<String>,
    pub anthropic_api_key: Option<String>,
    pub openai_api_key: Option<String>,
    pub gemini_api_key: Option<String>,
}

/// A scheduled autopilot job.
#[derive(Debug, Clone)]
pub struct AutopilotSchedule {
    pub name: String,
    pub cron: String,
    pub prompt: String,
    pub provider: Option<Provider>,
    pub command: Option<String>,
    pub enabled: bool,
}

/// The configured autopilot schedules.
#[derive(Debug, Clone)]
pub struct AutopilotConfig {
    pub schedules: Vec<AutopilotSchedule>,
}

/// One finished run of a schedule.
#[derive(Debug, Clone)]
pub struct AutopilotRunRecord {
    pub schedule_name: String,
    pub started_at: UtcTime,
    pub summary: String,
    pub success: bool,
}

impl AutopilotRunRecord {
    /// A copy of this record.
    pub fn duplicate(&self) -> (r: AutopilotRunRecord)
        ensures
            r == *self,
    {
        AutopilotRunRecord {
            schedule_name: self.schedule_name.clone(),
            started_at: self.started_at,
            summary: self.summary.clone(),
            success: self.success,
        }
    }
}

/// The autopilot's runtime state.
#[derive(Debug, Clone)]
pub struct AutopilotState {
    pub running: bool,
    pub daemon_pid: Option<u32>,
    pub daemon_started_at: Option<UtcTime>,
    pub daemon_heartbeat_at: Option<UtcTime>,
    pub last_started_at: Option<UtcTime>,
    pub last_tick_at: Option<UtcTime>,
    pub schedule_count: usize,
    pub recent_runs: Vec<AutopilotRunRecord>,
}

/// What a task plan sets out to do.
#[derive(Debug, Clone, Copy, PartialEq, Eq, Structural)]
pub enum TaskIntent {
    GuidanceOnly,
    DirectCommand,
    SystemHealth,
    Diagnostics,
    RepoStatus,
    FileInspection,
}

/// Whether a planned command may run as is.
#[derive(Debug, Clone, Copy, PartialEq, Eq, Structural)]
pub enum PlanStepSafety {
    Safe,
    ReviewRequired,
}

/// One step of a task plan.
#[derive(Debug, Clone)]
pub struct TaskPlanStep {
    pub description: String,
    pub command: Option<String>,
    pub safety: PlanStepSafety,
}

/// The plan derived from a prompt.
#[derive(Debug, Clone)]
pub struct TaskPlan {
    pub intent: TaskIntent,
    pub steps: Vec<TaskPlanStep>,
    pub warnings: Vec<String>,
}

/// The outcome of an agent request.
#[derive(Debug, Clone)]
pub struct AgentResult {
    pub id: u128,
    pub output: String,
    pub created_at: UtcTime,
    pub async_job: bool,
    pub plan: TaskPlan,
    pub provider_summary: Option<String>,
    pub commands: Vec<CommandExecution>,
    pub warnings: Vec<String>,
}

/// Settings for running commands and reading status through a remote service.
#[derive(Debug, Clone)]
pub struct RemoteConfig {
    pub enabled: bool,
    pub execute_endpoint: Option<String>,
    pub status_endpoint: Option<String>,
    pub auth_token: Option<String>,
    pub timeout_secs: u64,
    pub retries: u32,
}

/// The view of a plan step: description, command and safety.
pub struct StepView {
    pub description: Seq<char>,
    pub command: Option<Seq<char>>,
    pub safety: PlanStepSafety,
}

/// The view of a task plan.
pub struct PlanView {
    pub intent: TaskIntent,
    pub steps: Seq<StepView>,
    pub warnings: Seq<Seq<char>>,
}

impl View for TaskPlanStep {
    type V = StepView;

    open spec fn view(&self) -> StepView {
        StepView { description: self.description@, command: opt_view(self.command), safety: self.safety }
    }
}

impl View for TaskPlan {
    type V = PlanView;

    open spec fn view(&self) -> PlanView {
        PlanView {
            intent: self.intent,
            steps: self.steps@.map_values(|s: TaskPlanStep| s@),
            warnings: self.warnings@.map_values(|w: String| w@),
        }
    }
}


/// The name of the environment variable that holds `provider`'s API key.
pub open spec fn env_var_name(provider: Provider) -> Seq<char> {
    match provider {
        Provider::Anthropic => "ANTHROPIC_API_KEY"@,
        Provider::OpenAi => "OPENAI_API_KEY"@,
        Provider::Gemini => "GEMINI_API_KEY"@,
    }
}

/// The provider a lower-cased name stands for, if any.
pub open spec fn provider_named(lowered: Seq<char>) -> Option<Provider> {
    if lowered == "anthropic"@ {
        Some(Provider::Anthropic)
    } else if lowered == "openai"@ {
        Some(Provider::OpenAi)
    } else if lowered == "gemini"@ {
        Some(Provider::Gemini)
    } else {
        None
    }
}

impl Provider {
    /// The name of the environment variable that holds this provider's API key.
    pub fn env_var(self) -> (r: &'static str)
        ensures
            r@ == env_var_name(self),
    {
        match self {
            Provider::Anthropic => "ANTHROPIC_API_KEY",
            Provider::OpenAi => "OPENAI_API_KEY",
            Provider::Gemini => "GEMINI_API_KEY",
        }
    }

    /// The provider named by `lowered`, the lower-cased form of `value`; an
    /// unknown name is refused with a message quoting `value`.
    pub fn from_lowered(lowered: &str, value: &str) -> (r: Result<Provider, String>)
        ensures
            match r {
                Ok(p) => provider_named(lowered@) == Some(p),
                Err(m) => provider_named(lowered@) is None && m@ == "Unsupported provider: "@
                    + value@,
            },
    {
        let l = chars_of(lowered);
        if same_chars(&l, &chars_of("anthropic")) {
            Ok(Provider::Anthropic)
        } else if same_chars(&l, &chars_of("openai")) {
            Ok(Provider::OpenAi)
        } else if same_chars(&l, &chars_of("gemini")) {
            Ok(Provider::Gemini)
        } else {
            let mut m = "Unsupported provider: ".to_owned();
            m.append(value);
            Err(m)
        }
    }

    /// The provider named by `value`, in any letter case.
    pub fn parse(value: &str) -> (r: Result<Provider, String>)
        ensures
            match r {
                Ok(p) => provider_named(lowercase(value@)) == Some(p),
                Err(m) => provider_named(lowercase(value@)) is None && m@ == "Unsupported provider: "@
                    + value@,
            },
    {
        let lowered = to_lowercase(value);
        Provider::from_lowered(lowered.as_str(), value)
    }
}

impl std::str::FromStr for Provider {
    type Err = String;

    /// The provider named by `value`, in any letter case.
    fn from_str(value: &str) -> (r: Result<Provider, String>)
        ensures
            match r {
                Ok(p) => provider_named(lowercase(value@)) == Some(p),
                Err(m) => provider_named(lowercase(value@)) is None && m@ == "Unsupported provider: "@
                    + value@,
            },
    {
        Provider::parse(value)
    }
}

/// The view of an optional string slice.
pub open spec fn opt_str_view(o: Option<&str>) -> Option<Seq<char>> {
    match o {
        Some(s) => Some(s@),
        None => None,
    }
}

/// The key stored for `provider`: its own key, or else the shared one.
pub open spec fn stored_key(config: AuthConfig, provider: Provider) -> Option<Seq<char>> {
    let own = match provider {
        Provider::Anthropic => config.anthropic_api_key,
        Provider::OpenAi => config.openai_api_key,
        Provider::Gemini => config.gemini_api_key,
    };
    match own {
        Some(k) => Some(k@),
        None => opt_view(config.api_key),
    }
}

fn key_text(o: &Option<String>) -> (r: Option<&str>)
    ensures
        opt_str_view(r) == opt_view(*o),
{
    match o {
        Some(k) => Some(k.as_str()),
        None => None,
    }
}

impl AuthConfig {
    /// The key for `provider`: its own key, or else the shared one.
    pub fn key_for(&self, provider: Provider) -> (r: Option<&str>)
        ensures
            opt_str_view(r) == stored_key(*self, provider),
    {
        let own = match provider {
            Provider::Anthropic => &self.anthropic_api_key,
            Provider::OpenAi => &self.openai_api_key,
            Provider::Gemini => &self.gemini_api_key,
        };
        match own {
            Some(k) => Some(k.as_str()),
            None => key_text(&self.api_key),
        }
    }
}

impl AuthConfig {
    /// These credentials with `provider`'s own key replaced by `env_key`, the
    /// value of its environment variable, when that is set.
    pub fn with_env_key(&self, provider: Provider, env_key: Option<String>) -> (r: AuthConfig)
        ensures
            stored_key(r, provider) == match env_key {
                Some(k) => Some(k@),
                None => stored_key(*self, provider),
            },
            forall|p: Provider| p != provider ==> stored_key(r, p) == stored_key(*self, p),
            r.api_key == self.api_key,
            provider != Provider::Anthropic || env_key is None ==> r.anthropic_api_key == self.anthropic_api_key,
            provider != Provider::OpenAi || env_key is None ==> r.openai_api_key == self.openai_api_key,
            provider != Provider::Gemini || env_key is None ==> r.gemini_api_key == self.gemini_api_key,
            provider == Provider::Anthropic && env_key is Some ==> r.anthropic_api_key == env_key,
            provider == Provider::OpenAi && env_key is Some ==> r.openai_api_key == env_key,
            provider == Provider::Gemini && env_key is Some ==> r.gemini_api_key == env_key,
    {
        let mut r = AuthConfig {
            api_key: self.api_key.clone(),
            anthropic_api_key: self.anthropic_api_key.clone(),
            openai_api_key: self.openai_api_key.clone(),
            gemini_api_key: self.gemini_api_key.clone(),
        };
        if let Some(k) = env_key {
            match provider {
                Provider::Anthropic => r.anthropic_api_key = Some(k),
                Provider::OpenAi => r.openai_api_key = Some(k),
                Provider::Gemini => r.gemini_api_key = Some(k),
            }
        }
        r
    }
}

impl Default for AuthConfig {
    fn default() -> (r: AuthConfig)
        ensures
            r.api_key is None,
            r.anthropic_api_key is None,
            r.openai_api_key is None,
            r.gemini_api_key is None,
    {
        AuthConfig { api_key: None, anthropic_api_key: None, openai_api_key: None, gemini_api_key: None }
    }
}

impl Default for AutopilotConfig {
    fn default() -> (r: AutopilotConfig)
        ensures
            r.schedules@.len() == 0,
    {
        AutopilotConfig { schedules: Vec::new() }
    }
}

/// Whether a schedule that does not say is enabled: it is.
pub fn default_enabled() -> (r: bool)
    ensures
        r,
{
    true
}

impl Default for RemoteConfig {
    fn default() -> (r: RemoteConfig)
        ensures
            !r.enabled,
            r.execute_endpoint is None,
            r.status_endpoint is None,
            r.auth_token is None,
            r.timeout_secs == 0,
            r.retries == 0,
    {
        RemoteConfig {
            enabled: false,
            execute_endpoint: None,
            status_endpoint: None,
            auth_token: None,
            timeout_secs: 0,
            retries: 0,
        }
    }
}

/// Two moments fall in the same minute exactly when their year, month, day,
/// hour and minute are all equal; seconds and the rest do not count.
pub proof fn lemma_same_minute_fields(a: UtcTime, b: UtcTime)
    ensures
        a.same_minute(b) <==> (a.year == b.year && a.month == b.month && a.day == b.day
            && a.hour == b.hour && a.minute == b.minute),
        a.same_minute(b) == b.same_minute(a),
        a.same_minute(a),
{
}

/// Each provider's own key comes first, and a provider without one of its
/// own gets the shared key, whichever provider it is.
pub proof fn lemma_shared_key_fallback(config: AuthConfig)
    ensures
        config.anthropic_api_key matches Some(k) ==> stored_key(config, Provider::Anthropic) == Some(k@),
        config.openai_api_key matches Some(k) ==> stored_key(config, Provider::OpenAi) == Some(k@),
        config.gemini_api_key matches Some(k) ==> stored_key(config, Provider::Gemini) == Some(k@),
        config.anthropic_api_key is None ==> stored_key(config, Provider::Anthropic) == opt_view(config.api_key),
        config.openai_api_key is None ==> stored_key(config, Provider::OpenAi) == opt_view(config.api_key),
        config.gemini_api_key is None ==> stored_key(config, Provider::Gemini) == opt_view(config.api_key),
        forall|p: Provider|
            #![trigger stored_key(config, p)]
            stored_key(config, p) is None ==> config.api_key is None,
{
}

} // verus!
