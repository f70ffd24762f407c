# mcp_sdk

A Model Context Protocol (MCP) server library whose protocol logic is verified with
Verus.

- `src/` is the verified library: the JSON-RPC and MCP types (`protocol`), the error
  type and its JSON-RPC codes (`error`), the keyed registries of tools, resources and
  prompts with their builders (`registry`, `tool`, `resource`, `prompt`), the server's
  request decisions and handshake state (`server`), and the transports' rules
  (`transport`): which messages are requests, how errors are answered, and how the
  stdio transport cuts bounded newline-delimited lines from a stream however it
  arrives in chunks. JSON values are `serde_json` values carried through unchanged;
  `json` and `text` hold the contracts of the few `serde_json` and `std` calls the
  logic makes.
- `app/` is the asynchronous part: handler closures, a shared server that runs each
  handler as a task, the `serde` shapes of the protocol types, and the stdio and HTTP
  (axum) transports that read, write and await.
- `tests/` exercises the library.
