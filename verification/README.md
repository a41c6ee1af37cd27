# hstack_agent

The agent harness of HStack, written in Verus: a provider-driven loop that
decodes each model turn into exactly one tool action, a workspace of apps
mounted into the model's context under a token budget, and the tools the
agent works with (scratchpad, stack and web search, light compute,
microbash, file edits, execution requests), together with the state
machines of the native sync and voice runtimes.

Layout:

- `src/` — the verified library. `agent/` holds the turn decoding, the run
  state machine, the tool catalog, schemas and tools, the provider wire
  format and the context contract; `workspace/` the dock, viewports,
  allocator, deltas and context projection; `microbash/` the command
  lexer, parser and lowering, and what the workspace shows of an
  instruction's outcome; `compute/` the light-compute rules and the
  JavaScript-to-Python body translation; `edit.rs` row-span edits;
  `fspolicy.rs` and `vpath.rs` the sandbox path policy; `memory.rs` the
  working memory and its short-term retention; `sync.rs`,
  `sync_config.rs` (the sync URLs, through the `url` crate),
  `sync_runtime.rs`, `voice.rs` and `settings.rs` the app runtime
  decisions; `formal.rs` the modeled decode algebra and its laws.
- `tests/` — tests of the library on concrete values.
- `app/` — the host around the library: the run loop's I/O, the sandboxed
  filesystem on disk, JSON conversion, the sync and voice loops, and the
  rate limiter.
