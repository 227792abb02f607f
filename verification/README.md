# codex_session_kit

Verified pieces of a coding agent's session plumbing.

- `src/` is the library. Its contracts are checked by Verus.
  - `tool_output_prune`: clearing old tool outputs out of a conversation.
  - `remote_control`: enrollment, pairing, persistence, previews of responses and the reported
    version.
  - `apply_patch`: what becomes of a patch, and how its changes are told.
  - `context`: fragments of context that are put before the model.
  - `mcp_notifications`: what a client makes of an MCP server's notifications.
  - `protocol`, `text`, `encoding`, `json`, `http_response`, `clock`: what these rest on. The
    calls into other crates and into the standard library that are trusted stand in the last
    four, and those on paths in `apply_patch`.
- `app/` is the code around the library: network, files, processes and logging.
- `tests/` runs the library.

Names that begin with `law_` are proofs of what holds of the library as a whole.
