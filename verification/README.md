# osmozzz

Connectors that expose third-party services (n8n, Notion, PostHog, Railway, Reddit, Render,
Resend, Sentry, Shopify, Slack, Stripe, Supabase, Twilio, Vercel) as text-producing tools, a
bridge to third-party MCP servers run as subprocesses, and local HMAC signatures of snippets.

## Layout

- `src/` — the library, verified with Verus.
  - `connectors/` — one module per service. Each tool call is a small state machine:
    `handle(cfg, name, args, responses)` returns either the next HTTP request to make
    (`Step::Send`) or the outcome (`Step::Done`), given the parsed responses so far. Its
    contract states the step exactly, through a spec function `handle_view`; proof functions
    state what holds of every call (how many requests a tool makes, what the requests carry,
    which parts of a response never reach the output).
  - `mcp_proxy/` — the JSON-RPC lines exchanged with MCP subprocess servers, the reading of
    their replies, and the launch settings of each configured server.
  - `signing.rs` — signing and checking snippets with a local key.
  - `json.rs`, `encoding.rs`, `text.rs`, `fmt.rs`, `timefmt.rs`, `http.rs` — JSON values and
    their serialisation, percent and base64 encodings, text helpers, and the request type.
- `app/` — the `osmozzz` command: configuration files, HTTPS requests and the parsing of their
  replies, subprocesses, and the few tools that run on parsed JSON directly: those whose
  output rests on floating point, and the Stripe webhook deletion (which shows a parsed reply
  with `Debug`).
- `tests/` — tests of the library on concrete values.
