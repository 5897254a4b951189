# argusx

The logic of the ArgusX desktop app and of its cookie gateway, written in
Verus and proved against its contracts.

- `src/` is the verified library.
  - `llm_runtime_config`, `system_prompt`: the per-provider LLM settings, their
    normalization, the usable providers and models, and the system prompt.
  - `secure_config`, `provider_settings`: the host fingerprint and the keys
    derived from it, sealing API keys with AES-256-GCM, and the checks and
    records of saved provider profiles.
  - `persistence`: the chat message listing query and the rows of the stored
    runtime configuration, with what loading them gives back.
  - `chat`: conversations and their threads and checkpoints, the turn
    lifecycle of the conversation manager, stored history, turn events for
    the front end, plan snapshots, model requests and tool authorization.
  - `cookie_gateway`: the cookie store and its whitelist, the gateway's
    endpoints, the fetch tool, the proxy's target and the extension's
    command protocol.
  - `protocol`, `catalog`, `text`: the model wire protocol, a keyed record
    catalog, and verified string helpers.
  - `primitives`: the calls into other crates (hashing, AES-GCM, base64, URL
    parsing, JSON lists, ids, randomness, the keyring, the clock), each with
    the contract the library relies on.
- `tests/` exercises the library.
- `app/` holds what reaches outside the process: the gateway's HTTP and
  websocket server, SQLite and JSON files, the host's identity, environment
  settings, and outbound HTTP.
