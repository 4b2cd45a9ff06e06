# lingchong-bot

Telegram and Discord bot runtime substrate: message chunking, session
partition keys, harness helpers and runtime configuration, written in Verus
with each public function's behaviour stated as a contract and proved.

Layout:

- `src/text.rs`, `src/decimal.rs`: the character-sequence model shared by the
  rest (trimming, searching, ordering, decimal parsing and rendering).
- `src/channels/`: Discord and Telegram chunking, session keys and scopes,
  the Discord mention gate. Markdown events come from pulldown-cmark, as
  their `Debug` renderings, which the library reads back and classifies.
- `src/gateway.rs`, `src/turn.rs`: the agent gateway client boundary and the
  request/reply logic of a bot turn.
- `src/harness/`: Discord ACL probes, Discord ingress identifiers, Telegram
  group profiles and session-matrix planning.
- `src/runtime/`: configuration from `LINGCHONG_*` variables, the
  secret-safe summary, the live launch plan and the preflight report.
- `src/cli.rs`: what each command prints and whether it succeeds.
- `app/`: the command-line program (reading arguments and the environment,
  printing), the HTTP calls to the gateway (reqwest,
  serde) and the stress-test configuration, which holds floating-point
  gates and file paths.
- `tests/`: behaviour tests run against the compiled library.
