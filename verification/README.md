# rsky_appview

An AT Protocol AppView for Know-Me: it follows relay firehoses, indexes
Bluesky records into PostgreSQL, and answers the `app.bsky.*` read endpoints,
together with LiveKit token minting and WebRTC (WHIP/WHEP) signalling.

The logic is a Verus library whose functions carry `requires`/`ensures`
contracts proved by Verus; the server around it is ordinary Rust.

## Layout

- `src/` — the verified library.
  - `scopes` — OAuth scope tokens and sets (parse, serialise, subset, XRPC permission).
  - `appview` — identifiers (`AtUri`, `Did`, `Cid`), the error type and its XRPC form, configuration.
  - `identity` — DID capability tiers, `did:key` / `did:peer` documents, `did:plc` / `did:web` locations,
    the composite resolver's decisions and the ATProto profile rules.
  - `auth` — bearer tokens and JWT payload segments.
  - `indexer`, `json`, `queue`, `firehose` — what a record indexes to; the durable job queues and
    stream cursors over fjall partitions; the relay consumer's dialled URL, reconnect, cursor and stream decisions.
  - `webrtc`, `livekit` — signalling sessions, token grants, billing tiers, room metadata.
  - `labels`, `label_cache` — label filtering by viewer preference, and the in-memory labels by subject.
  - `api`, `lexicon`, `db` — request parameters and views, lexicon and row types.
  - `text`, `clock` — string helpers with specifications, and the clock.
- `tests/` — tests of the library.
- `app/` — the server: configuration from the environment, the database queries, opening the
  queue's keyspace, the relay connections, the indexer loop, the HTTP routes, and the JSON and
  binary forms of the library's types.

Each law of the library is a public `proof fn` named `law_*` next to the functions it
speaks of.
