# universal-openai-rs

A client for OpenAI-compatible APIs (chat, prompt-first requests, the
Responses API, completions, embeddings, images, moderations, files, audio,
fine-tuning, models, lightweight agents and typed tools).

## Layout

- `src/` — the library, verified with Verus: configuration (base-URL
  normalisation, extra headers and their HTTP validity), endpoint URLs, every
  request builder and its `build` checks, the retry policy (which failures
  are retried, exponential backoff, jitter, `Retry-After`), the decisions of
  the retry loop, the reading of streamed responses (line splitting, strict
  SSE, lenient SSE and JSON-lines decoders, the law that chunk boundaries
  do not matter, and the end of a stream at the first line that cannot be
  read), provider errors, the output items and text of
  Responses answers, the agent registry and agent chains, the tool-name index
  of a tool registry, and the text helpers these rest on.
- `app/` — the asynchronous side, in plain Rust: HTTP transport through
  `reqwest` with the retry loop driven by `ApiClient::retry_step`, JSON forms
  of the library's types (`serde`), streamed responses, typed tools,
  JSON schemas of Rust types (`schemars`) and configuration from the
  environment.
- `tests/` — tests of the library.

Spans of time are nanoseconds (`u128`) and sampling temperatures are the bits
of an `f32` (`f32::to_bits`) in the library; `app/` converts.
