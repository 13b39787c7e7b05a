# dex-account

An authentication service: e-mail and password login with Argon2 hashes,
short-lived JWT access tokens, rotating refresh tokens kept as SHA-256
digests, optional TOTP second factor, password reset, emergency admin
access, and a lockout of client addresses after repeated failures.

## Layout

- `src/` is the library, verified with Verus. It holds every decision of
  the service: the error type and its HTTP answers, token signing and
  checking, refresh-token rotation and reuse detection, the two-factor
  challenge table, the lockout state machine (over a `DashMap`), the
  refresh cookie, the client-address choice, the rate-limit policies, the
  notifier's request bodies and the counters. Calls into outside crates
  (argon2, jsonwebtoken, sha2, base64, base32, totp-rs, uuid, chrono, rand,
  dashmap, serde_json) go through small trusted wrappers whose contracts
  say what each crate's source shows.
- `app/` is the program around it: the axum routes and middleware, the
  PostgreSQL queries (sqlx), the HTTP client of the notifier (reqwest),
  metrics export, tracing, CORS, and the `recover` command that prints an
  emergency admin token.
- `tests/` runs the library on concrete values.

## Running

Environment: `DATABASE_URL`, `DEX_JWT_SECRET`, `DEX_EMERGENCY_API_KEY`,
`DEX_SETUP_TOKEN`, `DEX_ALLOWED_ORIGINS` (comma-separated, no spaces), and
for password-reset e-mails `DEX_NOTIFIER_URL`, `DEX_NOTIFIER_API_KEY` and
`DEX_PASSWORD_RESET_URL` (the page the e-mailed link opens).
The server listens on port 3000 under `/api/v1`, with `/health` and
`/ready` beside it. `recover` as the first argument, with
`DEX_ADMIN_EMAIL` set, prints a fifteen-minute admin token instead.
