# codex-auth-proxy

A small local API proxy that reuses an existing Codex ChatGPT login to call
the Codex Responses backend. It serves `GET /healthz`, `GET /models`,
`GET /v1/models` and `POST /v1/responses`, guarded by its own bearer token.

Layout:

- `src/` — the verified library (Verus): upstream URLs (`urls`), the bearer
  check and header handling over `http::HeaderMap` (`headers`), JSON values
  over `serde_json::Value` (`json`), the OpenAI-shaped model list (`models`),
  request-body normalization (`normalize`), the installation id
  (`installation`), the retry flow of a proxied request (`flow`), and the
  configuration (`config`).
- `app/` — the server: argument parsing, the Codex login, file and network
  I/O, and the loop that performs the actions the flow decides.
- `tests/` — tests of the library's public functions.
