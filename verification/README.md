# openai_compatible

Answers requests to an agent through a local endpoint that speaks the chat completions protocol of
OpenAI. The decisions are written in Verus and proved against their contracts.

- `src/` is the library. `stream.rs` steps a response stream from events to actions; `request.rs`,
  `endpoint.rs`, `content.rs` and `events.rs` are what it is made of; `text.rs` and `ids.rs` are
  below those. `laws.rs` proves what holds of the whole: the order of the events in a stream, what
  ends it, what a URL is made into, what frames a request.
- `app/` sends the requests, turns JSON into values and back, and hands out the events.
- `tests/` runs the library on concrete values.

Two calls are trusted: a fresh UUID (`ids.rs`), and the text of an HTTP status (`endpoint.rs`).
