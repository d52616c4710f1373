# kurlyk

The verified core of a link-shortening service. A *core* service creates,
resolves and deletes short links and caches their targets in Redis; an
*analytics* service consumes click events from a Redis stream, counts them in
per-day buckets in Redis, and merges those buckets into Postgres.

`src/` is the library, written in Verus: every function has a contract that
Verus proves.

- `config` — the settings of the services: their types and defaults, how they
  are decoded from TOML and the environment, and the rules they must satisfy.
- `retry`, `connections` — retrying a fallible operation with constant,
  linear or exponential backoff; the policy used to connect to Postgres and
  Redis.
- `analytics` — the day-buckets: parsing them from Redis hashes, scanning
  them into snapshots, planning the merge of a snapshot into Postgres (each
  bucket keeps the larger count, totals grow by the gains), the Redis script
  calls of the event consumer and its decisions, and the statistics replies.
- `links` — the link service: time-to-live of cached targets, the replies to
  create, resolve and delete requests, random short codes, cache commands.
- `db`, `status`, `redis_keys`, `text`, `time` — database errors and their
  classification, refusals, the Redis key layout, and the string, integer and
  time-span utilities the rest is built on.

Laws proved about the library include: merging the same snapshot twice commits
the same buckets and gains nothing the second time; exponential backoff doubles
at every call up to the longest span; counts written in decimal are parsed back
unchanged; a click is counted under the day its bucket is read back as;
distinct links have distinct Redis keys; the default configuration is valid; a
cached target never outlives its link.

`app/` holds what Verus does not check: `main`, the network and database I/O,
the asynchronous loops that carry out the library's decisions, the
floating-point jitter of backoffs, and telemetry.

`tests/` exercises the library on concrete values.
