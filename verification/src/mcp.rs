//! The local Model Context Protocol server: JSON-RPC 2.0 requests, taken as
//! plain values, answered from the tool registry.
use vstd::prelude::*;
use crate::command::{command_refusal, validate_command};
use crate::error::error_text;
use crate::autopilot::RECENT_RUN_LIMIT;
use crate::model::{opt_view, AutopilotConfig, AutopilotRunRecord, AutopilotSchedule, AutopilotState, PlanView, TaskPlan};
use crate::render::{newest_first, newest_run_lines, run_line, schedule_line, schedule_lines, status_line, status_text};
use crate::planner::{build_task_plan, plan_for};
use crate::text::{char_rows, chars_of, eq_str, join, join_rows, lowercase, string_of, string_rows, trim};

verus! {

/// The JSON-RPC code of a request that is not valid JSON-RPC 2.0.
pub const INVALID_REQUEST: i64 = -32600;

/// The JSON-RPC code of a method the server does not offer.
pub const METHOD_NOT_FOUND: i64 = -32601;

/// The JSON-RPC code of parameters that name no tool, an unknown tool, or
/// lack an argument the tool needs.
pub const INVALID_PARAMS: i64 = -32602;

/// The code of a tool that was called correctly and refused the work.
pub const TOOL_FAILED: i64 = -32000;

/// The id of a JSON-RPC request, given back in its response.
#[derive(Debug)]
pub enum RpcId {
    Null,
    Number(u64),
    Text(String),
}

impl RpcId {
    /// A copy of this id.
    pub fn duplicate(&self) -> (r: RpcId)
        ensures
            r == *self,
    {
        match self {
            RpcId::Null => RpcId::Null,
            RpcId::Number(n) => RpcId::Number(*n),
            RpcId::Text(s) => RpcId::Text(s.clone()),
        }
    }
}

/// A named text argument of a tool call.
#[derive(Debug)]
pub struct ToolArgument {
    pub name: String,
    pub value: String,
}

/// The parameters of a `tools/call` request: the tool's name and its arguments.
#[derive(Debug)]
pub struct RpcParams {
    pub name: Option<String>,
    pub arguments: Vec<ToolArgument>,
}

/// A JSON-RPC request.
#[derive(Debug)]
pub struct JsonRpcRequest {
    pub jsonrpc: String,
    pub id: RpcId,
    pub method: String,
    pub params: Option<RpcParams>,
}

/// What a successful request gives back.
#[derive(Debug)]
pub enum RpcResult {
    /// The answer to `initialize`.
    Initialized { server_name: String, protocol_version: String },
    /// The names of the tools in the registry.
    Tools { names: Vec<String> },
    /// The text a tool produced.
    Text { text: String },
}

/// The view of a result.
pub enum RpcResultView {
    Initialized { server_name: Seq<char>, protocol_version: Seq<char> },
    Tools { names: Seq<Seq<char>> },
    Text { text: Seq<char> },
}

impl View for RpcResult {
    type V = RpcResultView;

    open spec fn view(&self) -> RpcResultView {
        match self {
            RpcResult::Initialized { server_name, protocol_version } => RpcResultView::Initialized {
                server_name: server_name@,
                protocol_version: protocol_version@,
            },
            RpcResult::Tools { names } => RpcResultView::Tools { names: string_rows(names@) },
            RpcResult::Text { text } => RpcResultView::Text { text: text@ },
        }
    }
}

/// A JSON-RPC error.
#[derive(Debug)]
pub struct JsonRpcError {
    pub code: i64,
    pub message: String,
    pub data: Option<String>,
}

/// The view of a JSON-RPC error.
pub struct RpcErrorView {
    pub code: i64,
    pub message: Seq<char>,
    pub data: Option<Seq<char>>,
}

impl View for JsonRpcError {
    type V = RpcErrorView;

    open spec fn view(&self) -> RpcErrorView {
        RpcErrorView { code: self.code, message: self.message@, data: opt_view(self.data) }
    }
}

/// A JSON-RPC response: exactly one of `result` and `error` is set.
#[derive(Debug)]
pub struct JsonRpcResponse {
    pub jsonrpc: String,
    pub id: RpcId,
    pub result: Option<RpcResult>,
    pub error: Option<JsonRpcError>,
}

/// What the runtime tools report, read from the autopilot's stored state: its
/// status line, the configured schedules and the recent runs, a line each.
#[derive(Debug)]
pub struct ToolContext {
    pub status: String,
    pub schedules: Vec<String>,
    pub recent_runs: Vec<String>,
}

impl ToolContext {
    /// What the runtime tools report of `state` and the schedules of `config`:
    /// the status line, a line per schedule in order, and a line per kept run,
    /// newest first.
    pub fn from_state(state: &AutopilotState, config: &AutopilotConfig) -> (r: ToolContext)
        ensures
            r.status@ == status_text(*state),
            string_rows(r.schedules@) == config.schedules@.map_values(|s: AutopilotSchedule| schedule_line(s)),
            string_rows(r.recent_runs@) == newest_first(state.recent_runs@, RECENT_RUN_LIMIT as nat).map_values(
                |x: AutopilotRunRecord| run_line(x),
            ),
    {
        ToolContext {
            status: status_line(state),
            schedules: schedule_lines(&config.schedules),
            recent_runs: newest_run_lines(&state.recent_runs, RECENT_RUN_LIMIT),
        }
    }
}

/// Builds JSON-RPC requests, numbering them from 1.
#[derive(Debug)]
pub struct McpClient {
    /// The id the next request gets.
    pub next_id: u64,
}

impl Default for McpClient {
    fn default() -> (r: McpClient)
        ensures
            r.next_id == 1,
    {
        McpClient { next_id: 1 }
    }
}

impl McpClient {
    /// A JSON-RPC 2.0 request for `method` with `params`, numbered with the
    /// next id; the count then goes up by one, wrapping around after the
    /// largest id.
    pub fn build_request(&mut self, method: &str, params: Option<RpcParams>) -> (r: JsonRpcRequest)
        ensures
            r.jsonrpc@ == "2.0"@,
            r.id == RpcId::Number(old(self).next_id),
            r.method@ == method@,
            r.params == params,
            final(self).next_id == (if old(self).next_id == u64::MAX {
                0u64
            } else {
                (old(self).next_id + 1) as u64
            }),
    {
        let id = self.next_id;
        self.next_id = if id == u64::MAX {
            0
        } else {
            id + 1
        };
        JsonRpcRequest { jsonrpc: "2.0".to_owned(), id: RpcId::Number(id), method: method.to_owned(), params }
    }
}

/// The names of the tools in the registry, in the order they are listed.
pub open spec fn tool_names() -> Seq<Seq<char>> {
    seq![
        "echo"@,
        "health-check"@,
        "task-plan"@,
        "autopilot-status"@,
        "autopilot-schedule-list"@,
        "autopilot-recent-runs"@,
        "safe-command"@,
    ]
}

/// The value of the first argument named `key` at or after position `i`.
pub open spec fn argument_from(args: Seq<ToolArgument>, key: Seq<char>, i: int) -> Option<Seq<char>>
    decreases args.len() - i,
{
    if i < 0 || i >= args.len() {
        None
    } else if args[i].name@ == key {
        Some(args[i].value@)
    } else {
        argument_from(args, key, i + 1)
    }
}

/// The value of the first argument named `key`.
pub open spec fn argument(args: Seq<ToolArgument>, key: Seq<char>) -> Option<Seq<char>> {
    argument_from(args, key, 0)
}

/// An error with `code` and `message` and no data.
pub open spec fn rpc_error(code: i64, message: Seq<char>) -> RpcErrorView {
    RpcErrorView { code, message, data: None }
}

/// The error of a tool call that lacks the argument `key`.
pub open spec fn missing_argument(key: Seq<char>) -> RpcErrorView {
    rpc_error(INVALID_PARAMS, "missing argument: "@ + key)
}

/// The lines that describe a plan: the command of each step, then each warning.
pub open spec fn plan_lines(p: PlanView) -> Seq<Seq<char>> {
    Seq::new(
        p.steps.len(),
        |i: int|
            match p.steps[i].command {
                Some(c) => c,
                None => Seq::empty(),
            },
    ) + p.warnings
}

/// What the tool `name` answers to `args`.
pub open spec fn tool_answer(name: Seq<char>, args: Seq<ToolArgument>, context: ToolContext) -> Result<
    RpcResultView,
    RpcErrorView,
> {
    if name == "echo"@ {
        match argument(args, "text"@) {
            Some(t) => Ok(RpcResultView::Text { text: t }),
            None => Err(missing_argument("text"@)),
        }
    } else if name == "health-check"@ {
        Ok(RpcResultView::Text { text: "ok"@ })
    } else if name == "task-plan"@ {
        match argument(args, "prompt"@) {
            Some(p) => Ok(
                RpcResultView::Text {
                    text: join(plan_lines(plan_for(trim(p), lowercase(trim(p)))), "\n"@),
                },
            ),
            None => Err(missing_argument("prompt"@)),
        }
    } else if name == "autopilot-status"@ {
        Ok(RpcResultView::Text { text: context.status@ })
    } else if name == "autopilot-schedule-list"@ {
        Ok(RpcResultView::Text { text: join(string_rows(context.schedules@), "\n"@) })
    } else if name == "autopilot-recent-runs"@ {
        Ok(RpcResultView::Text { text: join(string_rows(context.recent_runs@), "\n"@) })
    } else if name == "safe-command"@ {
        match argument(args, "command"@) {
            Some(c) => match command_refusal(c) {
                None => Ok(RpcResultView::Text { text: c }),
                Some(e) => Err(rpc_error(TOOL_FAILED, error_text(e))),
            },
            None => Err(missing_argument("command"@)),
        }
    } else {
        Err(rpc_error(INVALID_PARAMS, "unknown tool: "@ + name))
    }
}

/// What the server answers to `request`.
pub open spec fn answer(request: JsonRpcRequest, context: ToolContext) -> Result<RpcResultView, RpcErrorView> {
    if request.jsonrpc@ != "2.0"@ {
        Err(rpc_error(INVALID_REQUEST, "unsupported jsonrpc version: "@ + request.jsonrpc@))
    } else if request.method@ == "initialize"@ {
        Ok(
            RpcResultView::Initialized {
                server_name: "ralps-mcp-server"@,
                protocol_version: "2024-11-05"@,
            },
        )
    } else if request.method@ == "tools/list"@ {
        Ok(RpcResultView::Tools { names: tool_names() })
    } else if request.method@ == "tools/call"@ {
        match request.params {
            Some(p) => match p.name {
                Some(n) => tool_answer(n@, p.arguments@, context),
                None => Err(rpc_error(INVALID_PARAMS, "missing tool name"@)),
            },
            None => Err(rpc_error(INVALID_PARAMS, "missing tool name"@)),
        }
    } else {
        Err(rpc_error(METHOD_NOT_FOUND, "method not found: "@ + request.method@))
    }
}

/// The view of a result or an error.
pub open spec fn outcome_view(r: Result<RpcResult, JsonRpcError>) -> Result<RpcResultView, RpcErrorView> {
    match r {
        Ok(v) => Ok(v@),
        Err(e) => Err(e@),
    }
}

/// Whether `response` carries `outcome`: its result, or its error.
pub open spec fn carries(response: JsonRpcResponse, outcome: Result<RpcResultView, RpcErrorView>) -> bool {
    match outcome {
        Ok(v) => response.error is None && (response.result matches Some(x) && x@ == v),
        Err(e) => response.result is None && (response.error matches Some(x) && x@ == e),
    }
}

fn joined(lead: &str, tail: &str) -> (r: String)
    ensures
        r@ == lead@ + tail@,
{
    let mut s = lead.to_owned();
    s.append(tail);
    s
}

fn failure(code: i64, message: String) -> (e: JsonRpcError)
    ensures
        e@ == rpc_error(code, message@),
{
    JsonRpcError { code, message, data: None }
}

fn find_argument(args: &Vec<ToolArgument>, key: &str) -> (r: Option<String>)
    ensures
        opt_view(r) == argument(args@, key@),
{
    let mut i: usize = 0;
    while i < args.len()
        invariant
            i <= args.len(),
            argument(args@, key@) == argument_from(args@, key@, i as int),
        decreases args.len() - i,
    {
        if eq_str(args[i].name.as_str(), key) {
            return Some(args[i].value.clone());
        }
        i = i + 1;
    }
    None
}

fn joined_lines(lines: &Vec<String>) -> (r: String)
    ensures
        r@ == join(string_rows(lines@), "\n"@),
{
    let mut rows: Vec<Vec<char>> = Vec::new();
    let mut i: usize = 0;
    while i < lines.len()
        invariant
            i <= lines.len(),
            rows@.len() == i,
            forall|k: int| 0 <= k < i ==> #[trigger] rows@[k]@ == lines@[k]@,
        decreases lines.len() - i,
    {
        rows.push(chars_of(lines[i].as_str()));
        i = i + 1;
    }
    assert(char_rows(rows@) =~= string_rows(lines@));
    string_of(&join_rows(&rows, &chars_of("\n")))
}

fn plan_text(plan: &TaskPlan) -> (r: String)
    ensures
        r@ == join(plan_lines(plan@), "\n"@),
{
    let mut lines: Vec<String> = Vec::new();
    let mut i: usize = 0;
    while i < plan.steps.len()
        invariant
            i <= plan.steps.len(),
            lines@.len() == i,
            forall|k: int|
                0 <= k < i ==> #[trigger] lines@[k]@ == (match plan@.steps[k].command {
                    Some(c) => c,
                    None => Seq::empty(),
                }),
        decreases plan.steps.len() - i,
    {
        match &plan.steps[i].command {
            Some(c) => lines.push(c.clone()),
            None => lines.push(String::new()),
        }
        i = i + 1;
    }
    let n = plan.steps.len();
    let mut j: usize = 0;
    while j < plan.warnings.len()
        invariant
            n == plan.steps.len(),
            j <= plan.warnings.len(),
            lines@.len() == n + j,
            forall|k: int|
                0 <= k < n ==> #[trigger] lines@[k]@ == (match plan@.steps[k].command {
                    Some(c) => c,
                    None => Seq::empty(),
                }),
            forall|k: int| 0 <= k < j ==> #[trigger] lines@[n + k]@ == plan.warnings@[k]@,
        decreases plan.warnings.len() - j,
    {
        lines.push(plan.warnings[j].clone());
        j = j + 1;
    }
    assert forall|k: int| n <= k < lines@.len() implies #[trigger] lines@[k]@ == plan@.warnings[k - n] by {
        assert(lines@[n + (k - n)]@ == plan.warnings@[k - n]@);
    }
    assert(string_rows(lines@) =~= plan_lines(plan@));
    joined_lines(&lines)
}

fn call_tool(name: &str, args: &Vec<ToolArgument>, context: &ToolContext) -> (r: Result<RpcResult, JsonRpcError>)
    ensures
        outcome_view(r) == tool_answer(name@, args@, *context),
{
    if eq_str(name, "echo") {
        match find_argument(args, "text") {
            Some(t) => Ok(RpcResult::Text { text: t }),
            None => Err(failure(INVALID_PARAMS, joined("missing argument: ", "text"))),
        }
    } else if eq_str(name, "health-check") {
        Ok(RpcResult::Text { text: "ok".to_owned() })
    } else if eq_str(name, "task-plan") {
        match find_argument(args, "prompt") {
            Some(p) => {
                let plan = build_task_plan(p.as_str());
                Ok(RpcResult::Text { text: plan_text(&plan) })
            },
            None => Err(failure(INVALID_PARAMS, joined("missing argument: ", "prompt"))),
        }
    } else if eq_str(name, "autopilot-status") {
        Ok(RpcResult::Text { text: context.status.clone() })
    } else if eq_str(name, "autopilot-schedule-list") {
        Ok(RpcResult::Text { text: joined_lines(&context.schedules) })
    } else if eq_str(name, "autopilot-recent-runs") {
        Ok(RpcResult::Text { text: joined_lines(&context.recent_runs) })
    } else if eq_str(name, "safe-command") {
        match find_argument(args, "command") {
            Some(c) => match validate_command(c.as_str()) {
                Ok(()) => Ok(RpcResult::Text { text: c }),
                Err(e) => Err(failure(TOOL_FAILED, e.message())),
            },
            None => Err(failure(INVALID_PARAMS, joined("missing argument: ", "command"))),
        }
    } else {
        Err(failure(INVALID_PARAMS, joined("unknown tool: ", name)))
    }
}

fn tool_list() -> (r: Vec<String>)
    ensures
        string_rows(r@) == tool_names(),
{
    let mut r: Vec<String> = Vec::new();
    r.push("echo".to_owned());
    r.push("health-check".to_owned());
    r.push("task-plan".to_owned());
    r.push("autopilot-status".to_owned());
    r.push("autopilot-schedule-list".to_owned());
    r.push("autopilot-recent-runs".to_owned());
    r.push("safe-command".to_owned());
    assert(string_rows(r@) =~= tool_names());
    r
}

fn dispatch(request: &JsonRpcRequest, context: &ToolContext) -> (r: Result<RpcResult, JsonRpcError>)
    ensures
        outcome_view(r) == answer(*request, *context),
{
    if !eq_str(request.jsonrpc.as_str(), "2.0") {
        return Err(
            failure(INVALID_REQUEST, joined("unsupported jsonrpc version: ", request.jsonrpc.as_str())),
        );
    }
    let method = request.method.as_str();
    if eq_str(method, "initialize") {
        Ok(
            RpcResult::Initialized {
                server_name: "ralps-mcp-server".to_owned(),
                protocol_version: "2024-11-05".to_owned(),
            },
        )
    } else if eq_str(method, "tools/list") {
        Ok(RpcResult::Tools { names: tool_list() })
    } else if eq_str(method, "tools/call") {
        match &request.params {
            Some(p) => match &p.name {
                Some(n) => call_tool(n.as_str(), &p.arguments, context),
                None => Err(failure(INVALID_PARAMS, "missing tool name".to_owned())),
            },
            None => Err(failure(INVALID_PARAMS, "missing tool name".to_owned())),
        }
    } else {
        Err(failure(METHOD_NOT_FOUND, joined("method not found: ", method)))
    }
}

/// The local MCP server.
#[derive(Debug, Clone, Copy)]
pub struct McpServer;

impl McpServer {
    /// Answers `request` as JSON-RPC 2.0, with the request's id; the runtime
    /// tools report what `context` holds.
    pub fn handle(&self, request: &JsonRpcRequest, context: &ToolContext) -> (r: JsonRpcResponse)
        ensures
            r.jsonrpc@ == "2.0"@,
            r.id == request.id,
            carries(r, answer(*request, *context)),
    {
        let outcome = dispatch(request, context);
        let id = request.id.duplicate();
        match outcome {
            Ok(v) => JsonRpcResponse { jsonrpc: "2.0".to_owned(), id, result: Some(v), error: None },
            Err(e) => JsonRpcResponse { jsonrpc: "2.0".to_owned(), id, result: None, error: Some(e) },
        }
    }
}

/// Forwards requests to the local server and checks its replies.
#[derive(Debug, Clone, Copy)]
pub struct McpProxy {
    pub server: McpServer,
}

impl Default for McpProxy {
    fn default() -> (r: McpProxy)
        ensures
            r == (McpProxy { server: McpServer }),
    {
        McpProxy { server: McpServer }
    }
}

impl McpProxy {
    /// Hands `request` to the server; a reply that carries an error fails
    /// with the error's message, any other reply is passed on.
    pub fn proxy(&self, request: &JsonRpcRequest, context: &ToolContext) -> (r: Result<JsonRpcResponse, String>)
        ensures
            match answer(*request, *context) {
                Ok(v) => r matches Ok(response) && response.jsonrpc@ == "2.0"@ && response.id == request.id
                    && carries(response, Ok(v)),
                Err(e) => r matches Err(m) && m@ == e.message,
            },
    {
        let response = self.server.handle(request, context);
        if let Some(e) = &response.error {
            return Err(e.message.clone());
        }
        Ok(response)
    }
}

} // verus!
