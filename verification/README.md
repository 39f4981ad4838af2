# agentic_gateway

The core of a gateway that keeps a compacted prefix for each chat session, and of the split-execution
backend that an orchestrator calls to hydrate and persist turns. Every item under `src/` is verified
with Verus.

- `json`, `wire`: JSON values, and their text through `serde_json`.
- `text`, `headers`: text and HTTP headers.
- `types`, `error`: requests, and what can go wrong.
- `protocol`: the backend's protocol; `protocol::chat` and `protocol::reply` translate between the
  Responses API and Chat Completions.
- `session_prefix`: what is stored for a session, and what a stored row means.
- `chat_completions`: one request from its bytes to the prefix that is stored after it.
- `compaction`: the exchange with the compaction service.
- `pool_signals`: the load that an llm-d backend reports, and the thresholds on it.
- `split`, `handler`, `internal`: what split execution admits, forwards and stores.

What is believed without proof is what the functions marked `external_body` and the
`assume_specification` items say of `serde_json`, `http` and the standard library. They stand in
`wire`, `json`, `headers`, `text`, `pool_signals` and `split`.

`app/` holds the services around the library: listeners, the database, calls to the backend and to
the compaction service, the environment.
