# vaultless_core

The core of a messaging and usage-metering backend, written in Verus: every
decision the service makes about messages, usage counters, sessions,
accounts, notifications and pricing is an executable function with a
contract, proved by Verus.

## Layout

- `src/` — the verified library.
  - `text`, `ident`, `clock`, `keys`, `hexadecimal` — text handling,
    identifiers, calendar arithmetic and cache-key construction.
  - `usage/` — hourly and minute counters per application, per client and
    per API key: key formats and their parsers, the counting-script calls,
    flush planning, restoring the cache from stored rows, reports.
  - `message/` — instant messages: sending, inbox status and grouping,
    delivery, stored messages, IoT device messages, retries and upkeep.
  - `session/`, `session_keys` — PASETO session tokens, pub/sub health,
    the fast/secure verification plans, session counter flushing.
  - `user`, `notification`, `notices`, `pricing`, `webhook`,
    `message_proof` — accounts, notifications, pricing plans and
    subscriptions, webhooks, message proofs.
- `tests/` — tests of the library on concrete values.
- `app/` — the I/O around the library (Redis, Postgres, background loops)
  and the few computations done in floating point.

Calls into outside crates (`chrono`, `uuid`, `hex`, `base64`, `bcrypt`,
`getrandom`, `rand`, `pasetors`, `serde_json`, `rust_decimal`) stand behind
small trusted wrappers whose contracts say what the crates document.
