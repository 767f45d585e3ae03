# rmcp_typescript

Node.js bindings for an MCP (Model Context Protocol) client, with the bindings'
rules verified in Verus.

- `src/` is the verified library:
  - `json` — JSON values as plain data (`JsonValue`) and their mathematical form
    (`JsonTree`); copying, object extraction.
  - `protocol` — the client library's model as far as the bindings read it:
    implementation info, capabilities, client info, initialize answers, tool
    call parameters; experimental capabilities to and from JSON.
  - `model`, `model::capabilities` — the JavaScript-facing types (client info,
    implementation info, protocol versions, peer info, capabilities) and their
    conversions to and from the protocol's form.  Experimental capabilities
    keep their names sorted and unique as a type invariant, as the map they
    stand for does.
  - `transport`, `transport::sse` — transport handles, which connection a
    transport serves with and which error it gives when it has none.
  - `service` — the client handle and tool call parameters.
  - `error` — the bindings' errors and the message JavaScript sees for each.
  - `laws` — round trips of the conversions and what a transport gives out once.
- `app/` wraps these types as napi classes, converts to and from the client
  library's and serde_json's types, and performs the network and stdio work.
- `tests/` runs the library on concrete values.
