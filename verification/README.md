# bsds_core

The rules of the BSDS club dashboard, written in Verus and proved against
their contracts: member IDs and receipt numbers, roles and route access,
input validation, membership fees and periods, the approval workflow,
Razorpay order notes and webhook decisions, session tokens, field
encryption, rate limiting, staff bootstrapping, and the SQL the lists run.

## Layout

- `src/` — the verified library. Each public function states in `ensures`
  what it returns; the laws that relate several functions are public proof
  functions (`lemma_*`). Calls into the encoding and cryptography crates
  (base64, hex, HMAC-SHA256, AES-256-GCM, bcrypt, uuid, chrono) sit in
  `src/crypto.rs`, `src/dates.rs` and `src/text.rs` behind trusted wrappers
  whose contracts say what those crates document.
- `app/` — the HTTP service around the library: configuration, SQLite,
  Razorpay and WhatsApp over HTTP, JSON, the scheduler and the routes. It
  reads rows, calls the library's functions on them, and writes or sends
  what they return; the handlers keep the order of the database steps and
  the shape of the JSON replies.
- `tests/` — tests of the library on concrete values.

Amounts are carried in paise (or whole rupees for fixed fees), dates as day
numbers; `app/` converts at the edges.
