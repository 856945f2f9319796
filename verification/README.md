# certification

Attendance tracking and certification for club events, as a verified Rust library (Verus) with a
thin Soroban contract around it.

Members register for an event before it begins, check in with a one-time QR nonce and a face match,
confirm presence pings, and check out. Whoever confirmed at least nine of ten scheduled pings can mint a
certificate. Fraud is answered with a blacklist, a public log and the revocation of certificates.

## Layout

- `src/contract.rs`: the requests, each with its exact contract.
- `src/rules.rs`: the rules that the contracts speak of: for each request, why it is refused and
  what it writes.
- `src/ledger.rs`, `src/types.rs`, `src/table.rs`: the ledger entries, their views, and the table
  that holds them.
- `src/history.rs`, `src/laws.rs`: requests as values, and what holds of every sequence of them,
  with the host dropping old nonces in between. Each request's contract says that it does what its
  value says.
- `src/footprint.rs`: which ledger entries a request reads and writes, so that a host can run it
  on these entries alone.
- `src/digest.rs`: certificate ids. The only trusted item is the host's SHA-256.
- `src/error.rs`: the refusals and their numbers.
- `app/`: the contract as the host runs it: authorization, the clock, storage, logging.

Two things come from the host and reach the library as an `Invocation`: the ledger timestamp, and
the addresses whose authorization the host has checked. A request that is refused returns its
error and leaves the ledger as it was; the contract in `app/` fails the invocation with the number
of the error.
