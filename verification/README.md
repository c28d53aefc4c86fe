# nodegaze

The verified core of NodeGaze, an observability backend for Lightning
Network nodes (LND and Core Lightning).

- `src/` is the library, written in Verus: every function carries a
  contract that Verus proves. It reads node RPC replies into channel,
  payment, invoice and event records; validates requests; decides what the
  account, user and authentication services do with what storage returned;
  turns errors into API responses; encrypts stored secrets; and filters and
  pages payment lists.
- `tests/` exercises the library on concrete values.
- `app/` is the server around it: HTTP (axum), SQLite (sqlx), gRPC to the
  nodes (tonic_lnd, cln-grpc) and outgoing notifications (reqwest).

Calls into other crates (secp256k1 keys, bitcoin networks and txids, hex,
Base64, AES-GCM, bcrypt, the `validator` rules, JSON parsing, the clock,
randomness) go through small
trusted wrappers whose contracts state what those crates do.
