# ollama_provider

The Ollama model provider of an inference gateway, verified with Verus.

- `src/` is the library. `credentials` decides which API key a request uses, `message`, `tool` and
  `request` turn a gateway request into Ollama's terms, `wire` and `json` give the request body its
  JSON form, `provider` prepares calls and interprets replies, `response` and `stream` do the same
  for answers and their streamed chunks, and `laws` states what holds across them.
- `app/` sends the requests over HTTP and reads and writes JSON texts.
- `tests/` runs the library on concrete values.

Contracts speak of models: `deep_view()` of a type gives its contents over sequences of characters.
