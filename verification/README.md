# vision

A Verus-verified library for talking to vision-capable chat-completions
models in independent sessions.

- `src/` is the verified library:
  - `client.rs`: client configuration (with defaults for a missing API key
    and base URL), requests and their builders, the chat-completions payload,
    interpretation of replies, and the retry schedule.
  - `json.rs`: the JSON values the library reads, and where in a reply body
    the content, usage and model are found.
  - `session.rs`: a session's conversation history and usage metadata, the
    turn protocol (record the user message, build the request with the
    earlier turns as context, record the
    reply), and laws about system messages and turns.
  - `manager.rs`: the open sessions keyed by id (a map model with laws for
    lookup, registration, removal and idle cleanup) and the default
    configuration for new sessions.
  - `tools.rs`: the tool specifications, argument reading, the OCR prompt,
    MIME detection and base64 encoding of image files.
  - `error.rs`: the library's errors and their messages.
  - `external.rs`: the trusted boundary with `std`, `chrono`, `uuid`,
    `base64` and `serde_json`.
- `app/` is the asynchronous, networked shell: the HTTP client, shared
  session handles, the manager behind an async lock, the tool entry points and
  the serde forms of the library's data.
- `tests/` exercises the library on concrete values.
