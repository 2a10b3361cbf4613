# pulse_client

Verified client library of the Pulse streaming platform.

The library decides what goes over the wire and what an answer means. It performs no input or
output of its own, so every decision has a contract that is proved:

| Module | What it decides |
|---|---|
| `client` | the client, its builder, and the request of an endpoint |
| `resources`, `iq`, `events`, `streams` | the requests of the REST API |
| `response` | the outcome of an answer: a document or a typed error |
| `error` | the error type, its categories and its text |
| `retry`, `duration` | which failures are retried, and after which wait |
| `events` | the parser of server-sent events |
| `duplex` | the URL, the frames and the correlation ids of the duplex channel |
| `streams`, `options`, `windows`, `aggs` | the stream builder and its compilation to a pipeline |
| `encode`, `text`, `fields`, `json` | percent-encoding, numerals, field maps, JSON documents |

A JSON document is a `serde_json::Value`; contracts speak of the document that it holds
(`json::json_of`). What is assumed of `serde_json`, of `bytes` and of the standard library stands
under the headings `trusted` in `json`, `events` and `text`.

General statements about the library (a chunked stream yields the same events however it is cut, an
encoded id reads back as that id, a POST is not repeated behind the caller's back) are the proof
functions whose names begin with `law_`.

`app/` is the async transport around the library, over `reqwest`, `tokio` and `tokio-tungstenite`.
