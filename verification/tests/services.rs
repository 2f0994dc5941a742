use ralps::ai::{AiError, AiService};
use ralps::cli::{prompt_from_input, prompt_source, resolve_mode, CliError, PromptSource};
use ralps::engine::{finish_run, plan_commands, run_warnings, AgentEngine, AuthService, AutopilotService};
use ralps::mcp::{
    JsonRpcRequest, JsonRpcResponse, McpClient, McpProxy, McpServer, RpcId, RpcParams, RpcResult, ToolArgument, ToolContext,
    INVALID_PARAMS, INVALID_REQUEST, METHOD_NOT_FOUND, TOOL_FAILED,
};
use ralps::model::{AgentRequest, AuthConfig, ExecutionMode, Provider, TaskIntent};
use std::path::PathBuf;

fn request(method: &str, params: Option<RpcParams>) -> JsonRpcRequest {
    JsonRpcRequest {
        jsonrpc: "2.0".to_string(),
        id: RpcId::Number(7),
        method: method.to_string(),
        params,
    }
}

fn tool_call(name: &str, args: &[(&str, &str)]) -> Option<RpcParams> {
    Some(RpcParams {
        name: Some(name.to_string()),
        arguments: args
            .iter()
            .map(|(k, v)| ToolArgument { name: k.to_string(), value: v.to_string() })
            .collect(),
    })
}

fn tool_context() -> ToolContext {
    ToolContext {
        status: "running: true".to_string(),
        schedules: vec!["nightly [0 2 * * *]".to_string(), "hourly [0 * * * *]".to_string()],
        recent_runs: vec![],
    }
}

fn text_of(response: &JsonRpcResponse) -> String {
    assert!(response.error.is_none());
    match &response.result {
        Some(RpcResult::Text { text }) => text.clone(),
        other => panic!("expected a text result, got {other:?}"),
    }
}

fn error_of(response: &JsonRpcResponse) -> (i64, String) {
    assert!(response.result.is_none());
    let e = response.error.as_ref().expect("an error reply");
    (e.code, e.message.clone())
}

#[test]
fn handles_payload() {
    let server = McpServer;
    let response = server.handle(&request("run", None), &tool_context());
    assert!(error_of(&response).1.contains("run"));
}

#[test]
fn unknown_methods_are_not_found() {
    let response = McpServer.handle(&request("run", None), &tool_context());
    assert_eq!(response.jsonrpc, "2.0");
    assert!(matches!(response.id, RpcId::Number(7)));
    assert_eq!(error_of(&response), (METHOD_NOT_FOUND, "method not found: run".to_string()));
}

#[test]
fn lists_the_tool_registry() {
    let mut list = request("tools/list", None);
    list.id = RpcId::Text("abc".to_string());
    let response = McpServer.handle(&list, &tool_context());
    assert!(matches!(&response.id, RpcId::Text(t) if t == "abc"));
    assert!(response.error.is_none());
    match response.result {
        Some(RpcResult::Tools { names }) => assert_eq!(
            names,
            vec![
                "echo",
                "health-check",
                "task-plan",
                "autopilot-status",
                "autopilot-schedule-list",
                "autopilot-recent-runs",
                "safe-command",
            ]
        ),
        other => panic!("expected the tool list, got {other:?}"),
    }
}

#[test]
fn initializes() {
    let response = McpServer.handle(&request("initialize", None), &tool_context());
    match response.result {
        Some(RpcResult::Initialized { server_name, protocol_version }) => {
            assert_eq!(server_name, "ralps-mcp-server");
            assert_eq!(protocol_version, "2024-11-05");
        }
        other => panic!("expected an initialize result, got {other:?}"),
    }
}

#[test]
fn tools_answer_from_the_registry() {
    let ctx = tool_context();
    let call = |name: &str, args: &[(&str, &str)]| McpServer.handle(&request("tools/call", tool_call(name, args)), &ctx);
    assert_eq!(text_of(&call("echo", &[("text", "deploy")])), "deploy");
    assert_eq!(text_of(&call("health-check", &[])), "ok");
    assert_eq!(text_of(&call("task-plan", &[("prompt", "  Check System Health ")])), "uptime\ndf -h\nuname -a");
    assert_eq!(
        text_of(&call("task-plan", &[("prompt", "")])),
        "Prompt was empty."
    );
    assert_eq!(text_of(&call("autopilot-status", &[])), "running: true");
    assert_eq!(
        text_of(&call("autopilot-schedule-list", &[])),
        "nightly [0 2 * * *]\nhourly [0 * * * *]"
    );
    assert_eq!(text_of(&call("autopilot-recent-runs", &[])), "");
    assert_eq!(text_of(&call("safe-command", &[("command", "git status")])), "git status");
    assert_eq!(
        error_of(&call("safe-command", &[("command", "rm -rf /")])),
        (TOOL_FAILED, "command is not allowed: rm".to_string())
    );
    assert_eq!(
        error_of(&call("safe-command", &[("command", "ls | wc")])),
        (TOOL_FAILED, "unsafe shell operator rejected in command: ls | wc".to_string())
    );
    assert_eq!(
        error_of(&call("echo", &[("other", "x")])),
        (INVALID_PARAMS, "missing argument: text".to_string())
    );
    assert_eq!(error_of(&call("nope", &[])), (INVALID_PARAMS, "unknown tool: nope".to_string()));
    assert_eq!(
        text_of(&call("echo", &[("text", "first"), ("text", "second")])),
        "first"
    );
}

#[test]
fn tool_calls_need_a_name_and_version() {
    let ctx = tool_context();
    let r = McpServer.handle(&request("tools/call", None), &ctx);
    assert_eq!(error_of(&r), (INVALID_PARAMS, "missing tool name".to_string()));
    let r = McpServer.handle(
        &request("tools/call", Some(RpcParams { name: None, arguments: vec![] })),
        &ctx,
    );
    assert_eq!(error_of(&r), (INVALID_PARAMS, "missing tool name".to_string()));
    let mut old = request("tools/list", None);
    old.jsonrpc = "1.0".to_string();
    let r = McpServer.handle(&old, &ctx);
    assert_eq!(error_of(&r), (INVALID_REQUEST, "unsupported jsonrpc version: 1.0".to_string()));
}

#[test]
fn proxies_tool_call() {
    let proxy = McpProxy::default();
    let output = proxy
        .proxy(&request("tools/call", tool_call("echo", &[("text", "deploy")])), &tool_context())
        .unwrap();
    assert!(text_of(&output).contains("deploy"));
}

#[test]
fn proxy_fails_on_error_replies() {
    let proxy = McpProxy::default();
    let e = proxy.proxy(&request("bogus", None), &tool_context()).unwrap_err();
    assert_eq!(e, "method not found: bogus");
}

#[test]
fn generates_for_configured_provider() {
    let service = AiService::new_default();
    let output = service.generate(Provider::OpenAi, "ping").unwrap();
    assert!(output.contains("ping"));
}

#[test]
fn providers_label_their_answers() {
    let service = AiService::new_default();
    assert_eq!(service.generate(Provider::Anthropic, "hi").unwrap(), "[anthropic] hi");
    assert_eq!(service.generate(Provider::OpenAi, "hi").unwrap(), "[openai] hi");
    assert_eq!(service.generate(Provider::Gemini, "hi").unwrap(), "[gemini] hi");
    let none = AuthConfig::default();
    let e = service.generate_with_auth(Provider::Gemini, "hi", &none).unwrap_err();
    assert_eq!(e, AiError::MissingCredentials { provider: Provider::Gemini });
    let key = AuthConfig { api_key: Some("k".to_string()), ..Default::default() };
    assert_eq!(service.generate_with_auth(Provider::Gemini, "hi", &key).unwrap(), "[gemini] hi");
    assert_eq!(AiError::NotConfigured.message(), "Provider not configured");
}

#[test]
fn services_keep_their_directory() {
    let dir = PathBuf::from("/tmp/ralps-test");
    assert_eq!(AuthService::new(dir.clone()).config_dir(), &dir);
    let engine = AgentEngine::new(dir.clone());
    assert_eq!(engine.auth().config_dir(), &dir);
    assert_eq!(AutopilotService::new(dir.clone()).config_dir(), &dir);
    assert_eq!(engine.plan_task("check system health").intent, TaskIntent::SystemHealth);
}

#[test]
fn run_assembly() {
    let engine = AgentEngine::new(PathBuf::from("/tmp/ralps-test"));
    let plan = engine.plan_task("write a poem");
    assert!(plan_commands(&plan).is_empty());
    let warnings = run_warnings(&plan);
    assert_eq!(warnings.len(), 3);
    assert_eq!(
        warnings[0],
        "No executable action derived from the prompt; returning provider guidance only."
    );
    let request = AgentRequest { prompt: "write a poem".to_string(), provider: Provider::Anthropic, mode: ExecutionMode::Async };
    let summary = engine.provider_summary(&request, &AuthConfig::default());
    let result = finish_run(&request, plan, vec![], summary, warnings);
    assert!(result.async_job);
    assert!(result.provider_summary.is_none());
    assert_eq!(result.warnings.len(), 4);
    assert_eq!(result.warnings[3], "Provider summary unavailable: no API key configured for this provider");
    assert!(result.output.starts_with("Warnings:\n- No executable action"));
    assert_eq!((result.id >> 76) & 0xf, 4);
    assert_eq!((result.id >> 62) & 0x3, 2);
    assert!(result.created_at.year >= 2024);

    let plan = engine.plan_task("run: echo hello");
    assert_eq!(plan_commands(&plan), vec!["echo hello"]);
    assert!(run_warnings(&plan).is_empty());
    let request = AgentRequest { prompt: "run: echo hello".to_string(), provider: Provider::OpenAi, mode: ExecutionMode::Interactive };
    let auth = AuthConfig { openai_api_key: Some("k".to_string()), ..Default::default() };
    let summary = engine.provider_summary(&request, &auth);
    let result = finish_run(&request, plan, vec![], summary, vec![]);
    assert!(!result.async_job);
    assert_eq!(result.provider_summary.as_deref(), Some("[openai] run: echo hello"));
    assert_eq!(result.output, "Provider summary:\n[openai] run: echo hello");
}

#[test]
fn command_line_modes_and_prompts() {
    assert_eq!(resolve_mode(true, true), Err(CliError::ConflictingModes));
    assert_eq!(resolve_mode(false, true), Ok(ExecutionMode::Async));
    assert_eq!(resolve_mode(false, false), Ok(ExecutionMode::Interactive));
    assert_eq!(resolve_mode(true, false), Ok(ExecutionMode::Interactive));
    assert!(matches!(prompt_source(ExecutionMode::Async, Some("p".to_string())), Ok(PromptSource::Given(p)) if p == "p"));
    assert!(matches!(prompt_source(ExecutionMode::Interactive, None), Ok(PromptSource::Stdin)));
    assert_eq!(
        prompt_source(ExecutionMode::Async, None).unwrap_err().message(),
        "--prompt is required in async mode"
    );
    assert_eq!(prompt_from_input("  deploy  \n"), Ok("deploy".to_string()));
    assert_eq!(prompt_from_input(" \n"), Err(CliError::MissingPrompt));
}

#[test]
fn builds_jsonrpc_request() {
    let mut client = McpClient::default();
    let request = client.build_request("tools/list", None);
    assert!(request.method.contains("tools/list"));
    assert_eq!(request.jsonrpc, "2.0");
    assert!(matches!(request.id, RpcId::Number(1)));
    assert!(request.params.is_none());
}

#[test]
fn client_numbers_requests_in_turn() {
    let mut client = McpClient::default();
    let first = client.build_request("initialize", None);
    let second = client.build_request("tools/call", tool_call("echo", &[("text", "x")]));
    assert!(matches!(first.id, RpcId::Number(1)));
    assert!(matches!(second.id, RpcId::Number(2)));
    assert_eq!(client.next_id, 3);
    assert_eq!(second.params.unwrap().arguments[0].value, "x");
    let mut last = McpClient { next_id: u64::MAX };
    assert!(matches!(last.build_request("tools/list", None).id, RpcId::Number(u64::MAX)));
    assert_eq!(last.next_id, 0);
}
