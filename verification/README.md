# parallel_world

The decision logic of a local-first desktop AI companion, written in Verus
and proved against its contracts.

## Layout

- `src/` — the verified library.
  - `behavior/` — companion modes and schedules, persona prompts, the
    dark-expression safety word, proactive-speech gates, and the activity
    collector that records foreground-window sessions.
  - `character/` — the character catalog and its profile checks, static
    image validation, Live2D `model3.json` reading, the import rules for
    managed generations, and the setup screen.
  - `chat/` — the worker fingerprint, LLM settings, the bounded enrichment
    queue and its worker decisions, and memory promotion and summaries.
  - `logs.rs` — bounded technical log lines, cursor reads, rotation and
    retention.
  - `text.rs` — string and character helpers shared by the modules.
- `tests/` — tests of the library, run against the compiled crate.
- `app/` — plain Rust around the library: files, JSON shapes, clocks and
  threads. It hands the library plain values and delegates every decision
  to it.

Calls into `serde_json`, `image`, `unicode-normalization` and
`unicode-casefold` stand behind small trusted wrappers whose contracts
say what those crates document; everything built on them is verified.
