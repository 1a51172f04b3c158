# GrantBot

Autonomous USDC payouts for merged pull requests: a GitHub webhook reports a
merged pull request, an AI evaluator (Venice AI) decides whether and how much
to pay, and the 1Shot relayer executes an ERC-20 transfer on Sepolia under the
repository owner's ERC-7715 delegation.

## Layout

- `src/` — the verified library (Verus).
  - `webhook.rs`, `webhook_laws.rs` — handling of a webhook delivery as a state
    machine (signature check, repository lookup, recording of the merged pull
    request), and what holds of every delivery.
  - `processor.rs`, `processor_laws.rs` — processing of a recorded pull
    request as a state machine (loads, evaluation, daily-cap and amount
    checks, transfer, records), and what holds of every run: payouts only when
    due, at most one transfer, termination, failures marked.
  - `signature.rs` — `X-Hub-Signature-256` verification (HMAC-SHA256).
  - `calldata.rs` — ABI encoding of `transfer(address,uint256)`.
  - `relayer.rs`, `venice.rs`, `github.rs` — building requests to, and reading
    replies of, the relayer, the evaluator and the GitHub API.
  - `config.rs`, `models.rs`, `status.rs`, `secret.rs` — configuration, API
    errors and request bodies, status texts, webhook secrets.
  - `json.rs`, `text.rs` — JSON field access (through `serde_json`) and
    character-level helpers.
- `tests/` — tests of the library.
- `app/` — the HTTP service (axum, sqlx, reqwest): routes, database access and
  the loops that perform the work the state machines ask for.
