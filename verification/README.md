# Auth emulator

A service that emulates authentication over HTTP. It

- issues an identity token (a JWT signed with HMAC-SHA256) and a refresh token,
- exchanges a refresh token for new tokens, once,
- validates identity tokens,
- exposes and pushes metrics in the text format of Prometheus.

`src/` is the library: every rule of the service, with contracts that Verus checks.
`app/` is the HTTP server around it. `tests/` runs the library.

## Configuration

| Variable | Default |
| --- | --- |
| `BIND_ADDR` | `127.0.0.1:8080` |
| `TOKEN_SIGNING_SECRET` | `local-dev-signing-secret-change-me` |
| `TOKEN_ISSUER` | `auth-emulator` |
| `TOKEN_AUDIENCE` | `sample-client` |
| `ID_TOKEN_TTL_SECONDS` | `300` |
| `REFRESH_TOKEN_TTL_SECONDS` | `3600` |
| `REFRESH_CLEANUP_INTERVAL_SECONDS` | `60` |
| `REFRESH_STORE_MAX_SIZE` | `100000` |
| `VM_PUSH_URL` | none |
| `VM_PUSH_INTERVAL_SECONDS` | `15` |

A number that cannot be read, or is not positive, gives way to its default.

## Requests

| Request | Body | Answer |
| --- | --- | --- |
| `POST /auth/token` | `subject` | `token_type`, `id_token`, `refresh_token`, `expires_in` |
| `POST /auth/refresh` | `refresh_token` | the same |
| `POST /auth/validate` | `id_token` | `valid`, `claims` |
| `GET /health` | | `status` |
| `GET /metrics` | | `http_requests_total`, `http_request_duration_seconds`, `http_requests_in_flight` |

## What is proved

The contracts in `src/service.rs` say what each request is answered and what it does to the
refresh tokens. `src/laws.rs` puts them together: a refresh token works once and until it
expires, no request keeps more tokens than may be kept, an identity token validates with the
claims that it was issued with until the leeway after its expiry has passed, and removing expired
tokens makes no difference to later requests. The contracts in `src/metrics.rs` say what each
request does to the metrics, and that the page shows them as they are.

What is taken on trust stands in functions marked `external_body`, each with a comment that names
the outside function it calls: of `jsonwebtoken`, `base64`, `serde_json`, `chrono`, `uuid`, `prometheus` and `std`.
