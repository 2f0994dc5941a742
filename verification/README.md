# ralps

A security-hardened DevOps agent for the terminal. The library in `src/` holds
its logic, each function with a contract proved by Verus:

- `planner` derives a task plan (intent, steps, safety) from a prompt;
- `command` checks commands against the shell-operator ban and the program
  allowlist, decides whether they run locally or through the remote service,
  records their output, and reads remote replies;
- `render` lays out the agent's output, one-line run summaries and the
  autopilot's status, schedule and run lines;
- `cron` evaluates five-field cron expressions;
- `autopilot` keeps the daemon's state and runs the scheduler's tick;
- `mcp` answers JSON-RPC 2.0 requests (`initialize`, `tools/list`,
  `tools/call`) from the tool registry, and the proxy checks the replies;
- `ai`, `engine` and `cli` hold the provider dispatch, the services and the
  command-line decisions;
- `text`, `number`, `model`, `error` and `clock` provide the text model, decimal
  numbers, the data types, the errors and the clock.

`app/` is the program around it: command-line parsing, the terminal dashboard
(run as `ralps-tui`), files, processes and HTTP, and the JSON forms of the
MCP requests and replies.
