# direct_inference

Runs agent turns against a user-configured, OpenAI-compatible endpoint (a
*direct provider*) and keeps the list of such providers.

The library (`src/`) is verified with Verus:

- `proto`, `openai`: the task protocol and the chat-completions protocol, each
  type with a mathematical counterpart reached through `deep_view`.
- `json`: JSON values, their compact text, and reading JSON text (through
  `serde_json`), such as a tool call's arguments.
- `translate`: task history and new inputs to chat messages, protocol tool
  calls to chat tool calls and back, tool results to the text the model reads.
- `tool_defs`: the chat tool definitions offered for the supported tools.
- `proxy`: a turn's bookkeeping, chat request and HTTP call, and the response
  events assembled from the completion.
- `providers`, `net`, `modal`: providers and their models, the calls made to
  them, and the add/edit dialog's decisions.
- `laws`: properties relating several operations (round trips, upsert and
  remove, model refresh, turn framing).

`app/` holds what Verus does not check: the HTTP transport, secure storage,
serde forms of the library's types, the conversion of the protocol's
generated types, and the dialog's view. It parses no tool-call arguments:
`finish_turn` reads them.
