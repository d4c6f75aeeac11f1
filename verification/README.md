# codex_acp

Verified core of a bridge between an agent-client-protocol front end and a
coding-agent back end.

- `src/` — the library, verified with Verus:
  - `text` — trimming, prefix and separator searches on `&str`;
  - `json` — a plain JSON value with a mathematical model, lookups and writes;
  - `events` — the back-end events the library reacts to, as plain values;
  - `developer_instructions` — instructions asked for by session metadata;
  - `goal`, `codex_extensions`, `jaz_extensions` — goal-mode requests and
    goal notifications in the two metadata dialects;
  - `collab_subagents` — sub-agent progress updates;
  - `model_metadata` — checking model metadata and merging it into a catalog;
  - `native_goal` — decisions of the native goal support;
  - `warning_policy` — which warnings reach the user.
- `tests/` — scenarios run against the compiled library.
- `app/` — the protocol types around the library: conversions, JSON encoding,
  environment access and the asynchronous goal store.
