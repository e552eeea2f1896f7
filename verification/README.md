# mcpg-plugin-backend-llm-compat

Backend bindings for endpoints that speak the OpenAI `/chat/completions` and
`/embeddings` ABIs (vLLM, LocalAI, Together, Groq, ...), with the decisions
they take proved in Verus.

- `src/` — the verified library: spec validation (`config`, `text`), the
  profile table (`registry`, `plugin`, `embedding_plugin`), the registration
  decisions (`registration`), the per-call decisions (`call`), fixed texts per
  surface (`surface`), JSON handling through `serde_json` (`json`), and the
  properties that span operations (`laws`).
- `app/` — the gateway-facing `BackendPlugin` impls that perform the work the
  library asks for: deserializing configs, resolving keys, building adapters,
  compiling templates and schemas, running the engines, metrics and tracing.
- `tests/` — tests of the library.
