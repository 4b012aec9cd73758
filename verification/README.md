# vestige_mcp

The decision-making core of the Vestige MCP server, written in Verus. The
functions in `src/` carry `requires`/`ensures` contracts that Verus proves,
except a few small trusted wrappers around std, `uuid` and `chrono` calls
(marked `#[verifier::external_body]`), whose contracts are assumed and whose
doc comments say what they claim.

## Layout

- `src/` — the verified library.
  - `json.rs`, `text.rs`, `schema.rs` — the JSON value model, character-level
    text operations (UTF-8 lengths, trimming, splitting, case folding) and the
    published shape of a tool's argument schema.
  - `catalog.rs`, `dispatch.rs`, `deprecated.rs`, `events.rs` — the tool and
    resource catalogs, routing of a call to its handler, the rewriting of
    retired tool names, and the dashboard events a call emits.
  - `confirm.rs`, `erase.rs`, `maintenance.rs` — the confirmation every
    destructive operation asks for, erasure planning and reporting, and the
    maintenance tools (`gc`, `split_memories`, `export`, `system_status`, …).
  - `memory.rs`, `intention.rs`, `codebase.rs`, `changelog.rs`, `dream.rs`,
    `explore.rs`, `health.rs`, `confidence.rs`, `precompute.rs`,
    `cross_reference.rs`, `compound.rs` — the per-tool request validation,
    selection rules and replies.
  - `telemetry.rs` — what telemetry a configuration asks for and how that is
    reported.
- `tests/` — executable tests of the library.
- `app/` — the process around it: JSON on the wire, serde argument parsing,
  environment variables, tracing spans, files on disk and the
  floating-point scores.

Each module states its laws as public proof functions named `law_*`.
