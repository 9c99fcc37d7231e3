# docker-mcp

An MCP server that exposes Docker operations to AI agents over stdio, with
its decision logic verified by Verus.

## Layout

- `src/` — the verified library:
  - `auth.rs`: scopes, the authorizer, and the scope list parser;
  - `validate.rs`: validation of names, compose paths, commands,
    environments and log tails;
  - `sanitize.rs`: redaction of every line that holds a secret pattern,
    output truncation, parameter fingerprints;
  - `inventory.rs`: the pinned tool inventory, its fingerprint and lookup;
  - `config.rs`: the configuration computed from the settings;
  - `audit.rs`: audit events and the logger;
  - `engine.rs`: what the Docker engine is asked for when a container is run;
  - `service.rs`: the two stages of a tool call: `screen` authorizes and
    validates it and audits a refusal; `conclude` sanitizes and audits the
    outcome of the Docker operation, which app/ performs between them;
  - `laws.rs`: properties of the library as a whole.
- `tests/` — tests of the library.
- `app/` — the program: environment, tracing, the bollard backend, audit
  sinks, the MCP tool surface (rmcp), and the call driver that runs a
  request through `screen`, the backend and `conclude`.
