# mcpify (verified core)

The core of a generator that turns an OpenAPI spec into an MCP server
project in one of five languages (TypeScript, Rust, Go, Python, C#),
written in Verus and proved against its contracts.

## Layout

- `src/` — the verified library.
  - `context.rs`, `auth_profile.rs`, `project_config.rs` — the generation
    request and the discovered auth schemes.
  - `case.rs`, `text.rs`, `words.rs` — identifier cases (via `heck`),
    character-level string helpers, whitespace splitting and sorted word sets.
  - `targets/<lang>/` — per-language naming, the template context every
    template of that language is rendered with, and `steps/`: the actions
    each lifecycle step performs (directories, renders, schema assets, test
    commands) and the version-aware file regions.
  - `plan.rs`, `commands.rs` — the actions a step performs and the commands
    the test step runs, with their failure reports.
  - `lifecycle.rs` — the step order and the stop/rollback decisions of a run.
  - `ledger.rs`, `marker_region.rs` — a project's version ledger and the
    marker-delimited regions re-rendered when it changes.
- `tests/` — tests of the library on concrete values.
- `app/` — the I/O around the library: template loading and rendering with
  Tera, the file system, running the generated project's toolchain with
  Tokio, and the async generator interface that drives a run.
