//! The services that hold the agent's configuration, and the agent's run.
use vstd::prelude::*;
use std::path::PathBuf;
use crate::ai::{ai_error_text, client_label, AiError, AiService, AnthropicClient, BuiltinClient, GeminiClient, OpenAiClient};
use crate::clock::{new_run_id, now_utc};
use crate::model::{
    opt_view, stored_key, AgentRequest, AgentResult, AuthConfig, CommandExecution, ExecutionMode,
    Provider, TaskPlan, TaskPlanStep,
};
use crate::planner::{build_task_plan, plan_for};
use crate::render::{render_agent_output, rendered_output};
use crate::text::{lowercase, string_rows, trim};

verus! {

/// A filesystem path (`std::path::PathBuf`), carried through as is.
#[verifier::external_type_specification]
#[verifier::external_body]
pub struct ExPathBuf(PathBuf);

/// Where the stored credentials live.
pub struct AuthService {
    config_dir: PathBuf,
}

impl AuthService {
    /// The configuration directory.
    pub closed spec fn dir(&self) -> PathBuf {
        self.config_dir
    }

    /// A service over the configuration directory `config_dir`.
    pub fn new(config_dir: PathBuf) -> (r: AuthService)
        ensures
            r.dir() == config_dir,
    {
        AuthService { config_dir }
    }

    /// The configuration directory.
    pub fn config_dir(&self) -> (r: &PathBuf)
        ensures
            *r == self.dir(),
    {
        &self.config_dir
    }
}

/// The agent: it plans prompts and asks the providers for summaries.
pub struct AgentEngine {
    ai: AiService,
    auth: AuthService,
}

impl AgentEngine {
    /// The configuration directory.
    pub closed spec fn dir(&self) -> PathBuf {
        self.auth.dir()
    }

    /// The provider service.
    pub closed spec fn service(&self) -> AiService {
        self.ai
    }

    /// An agent with every built-in provider, over the configuration directory `config_dir`.
    pub fn new(config_dir: PathBuf) -> (r: AgentEngine)
        ensures
            r.dir() == config_dir,
            r.service().client_for(Provider::Anthropic) == Some(BuiltinClient::Anthropic(AnthropicClient)),
            r.service().client_for(Provider::OpenAi) == Some(BuiltinClient::OpenAi(OpenAiClient)),
            r.service().client_for(Provider::Gemini) == Some(BuiltinClient::Gemini(GeminiClient)),
    {
        AgentEngine { ai: AiService::new_default(), auth: AuthService::new(config_dir) }
    }

    /// The credentials service.
    pub fn auth(&self) -> (r: &AuthService)
        ensures
            r.dir() == self.dir(),
    {
        &self.auth
    }

    /// The plan for `prompt`.
    pub fn plan_task(&self, prompt: &str) -> (r: TaskPlan)
        ensures
            r@ == plan_for(trim(prompt@), lowercase(trim(prompt@))),
    {
        build_task_plan(prompt)
    }

    /// The provider's summary of `request`, asked only when `auth` holds a key for it.
    pub fn provider_summary(&self, request: &AgentRequest, auth: &AuthConfig) -> (r: Result<String, AiError>)
        ensures
            stored_key(*auth, request.provider) is None ==> r == Err::<String, AiError>(
                AiError::MissingCredentials { provider: request.provider },
            ),
            stored_key(*auth, request.provider) is Some ==> match self.service().client_for(request.provider) {
                Some(c) => r matches Ok(s) && s@ == client_label(c) + request.prompt@,
                None => r == Err::<String, AiError>(AiError::NotConfigured),
            },
    {
        self.ai.generate_with_auth(request.provider, request.prompt.as_str(), auth)
    }
}

/// The commands of a plan's steps, in order, for the steps that have one.
pub open spec fn step_commands(steps: Seq<TaskPlanStep>) -> Seq<Seq<char>>
    decreases steps.len(),
{
    if steps.len() == 0 {
        Seq::empty()
    } else {
        step_commands(steps.drop_last()) + match opt_view(steps.last().command) {
            Some(c) => seq![c],
            None => Seq::empty(),
        }
    }
}

/// The commands to run for `plan`, in the order of its steps.
pub fn plan_commands(plan: &TaskPlan) -> (r: Vec<String>)
    ensures
        string_rows(r@) == step_commands(plan.steps@),
{
    let mut r: Vec<String> = Vec::new();
    let mut i: usize = 0;
    while i < plan.steps.len()
        invariant
            i <= plan.steps@.len(),
            string_rows(r@) == step_commands(plan.steps@.take(i as int)),
        decreases plan.steps.len() - i,
    {
        let ghost before = r@;
        match &plan.steps[i].command {
            Some(c) => r.push(c.clone()),
            None => {},
        }
        assert(plan.steps@.take(i + 1).drop_last() =~= plan.steps@.take(i as int));
        assert(string_rows(r@) =~= step_commands(plan.steps@.take(i + 1)));
        i = i + 1;
    }
    assert(plan.steps@.take(plan.steps@.len() as int) =~= plan.steps@);
    r
}

/// The warning given when a plan has no step.
pub open spec fn no_action_warning() -> Seq<char> {
    "No executable action derived from the prompt; returning provider guidance only."@
}

/// The warnings a run starts with: a note when the plan has no step, then the plan's own.
pub open spec fn opening_warnings(plan: TaskPlan) -> Seq<Seq<char>> {
    (if plan.steps@.len() == 0 {
        seq![no_action_warning()]
    } else {
        Seq::empty()
    }) + plan@.warnings
}

/// The warnings a run of `plan` starts with.
pub fn run_warnings(plan: &TaskPlan) -> (r: Vec<String>)
    ensures
        string_rows(r@) == opening_warnings(*plan),
{
    let mut r: Vec<String> = Vec::new();
    if plan.steps.len() == 0 {
        r.push("No executable action derived from the prompt; returning provider guidance only.".to_owned());
    }
    let ghost first = string_rows(r@);
    let mut i: usize = 0;
    while i < plan.warnings.len()
        invariant
            i <= plan.warnings@.len(),
            first == (if plan.steps@.len() == 0 { seq![no_action_warning()] } else { Seq::empty() }),
            string_rows(r@) == first + string_rows(plan.warnings@).take(i as int),
        decreases plan.warnings.len() - i,
    {
        let w = plan.warnings[i].clone();
        let ghost prev = r@;
        r.push(w);
        assert(r@ == prev.push(w));
        assert(string_rows(r@) =~= string_rows(prev).push(w@));
        assert(string_rows(plan.warnings@).take(i + 1) =~= string_rows(plan.warnings@).take(i as int).push(w@));
        assert(string_rows(r@) =~= first + string_rows(plan.warnings@).take(i + 1));
        i = i + 1;
    }
    assert(string_rows(plan.warnings@).take(plan.warnings@.len() as int) =~= plan@.warnings);
    r
}

/// The summary kept from a provider's answer.
pub open spec fn kept_summary(summary: Result<String, AiError>) -> Option<Seq<char>> {
    match summary {
        Ok(s) => Some(s@),
        Err(_) => None,
    }
}

/// The warnings once the provider has answered: a note is added when it failed.
pub open spec fn closing_warnings(warnings: Seq<Seq<char>>, summary: Result<String, AiError>) -> Seq<Seq<char>> {
    match summary {
        Ok(_) => warnings,
        Err(e) => warnings.push("Provider summary unavailable: "@ + ai_error_text(e)),
    }
}

/// The outcome of running `request` with `plan`: the executed `commands`, the
/// provider's `summary` and the `warnings` gathered so far, with a fresh
/// identifier and the current time.
pub fn finish_run(
    request: &AgentRequest,
    plan: TaskPlan,
    commands: Vec<CommandExecution>,
    summary: Result<String, AiError>,
    warnings: Vec<String>,
) -> (r: AgentResult)
    ensures
        r.plan == plan,
        r.commands == commands,
        r.async_job == (request.mode == ExecutionMode::Async),
        opt_view(r.provider_summary) == kept_summary(summary),
        string_rows(r.warnings@) == closing_warnings(string_rows(warnings@), summary),
        r.output@ == rendered_output(commands@, kept_summary(summary), string_rows(r.warnings@)),
        r.created_at.wf(),
        (r.id >> 76u128) & 0xfu128 == 4u128,
        (r.id >> 62u128) & 0x3u128 == 2u128,
{
    let mut warnings = warnings;
    let provider_summary = match summary {
        Ok(s) => Some(s),
        Err(e) => {
            let mut note = "Provider summary unavailable: ".to_owned();
            note.append(e.message().as_str());
            let ghost before = string_rows(warnings@);
            warnings.push(note);
            assert(string_rows(warnings@) =~= before.push(note@));
            None
        },
    };
    let output = match &provider_summary {
        Some(s) => render_agent_output(commands.as_slice(), Some(s.as_str()), warnings.as_slice()),
        None => render_agent_output(commands.as_slice(), None, warnings.as_slice()),
    };
    AgentResult {
        id: new_run_id(),
        output,
        created_at: now_utc(),
        async_job: request.mode == ExecutionMode::Async,
        plan,
        provider_summary,
        commands,
        warnings,
    }
}

/// The autopilot: it runs configured schedules through the agent.
pub struct AutopilotService {
    agent: AgentEngine,
}

impl AutopilotService {
    /// The configuration directory.
    pub closed spec fn dir(&self) -> PathBuf {
        self.agent.dir()
    }

    /// An autopilot over the configuration directory `config_dir`.
    pub fn new(config_dir: PathBuf) -> (r: AutopilotService)
        ensures
            r.dir() == config_dir,
            r.agent_spec().dir() == config_dir,
    {
        AutopilotService { agent: AgentEngine::new(config_dir) }
    }

    /// The agent the autopilot runs schedules with.
    pub closed spec fn agent_spec(&self) -> AgentEngine {
        self.agent
    }

    /// The agent the autopilot runs schedules with.
    pub fn agent(&self) -> (r: &AgentEngine)
        ensures
            *r == self.agent_spec(),
    {
        &self.agent
    }

    /// The configuration directory.
    pub fn config_dir(&self) -> (r: &PathBuf)
        ensures
            *r == self.dir(),
    {
        self.agent.auth().config_dir()
    }
}

} // verus!
