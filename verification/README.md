# concur_api

A client for the SAP Concur REST APIs (v4 / v4.1), built around a core that is
verified with Verus.

* `src/` is the verified library. It computes everything that does not need the
  network: the path and query string of every endpoint (with percent-encoded
  query values), the OAuth2 form of each grant, token expiry and the token cache,
  the retry policy (408, 429 and every 5xx are retried; how many attempts; the
  doubling backoff), the request headers (with the configured idempotency key on writes),
  and the error built from a failed response. It
  also holds the data model of the APIs.
* `app/` is the async client on top of it: it sends the requests with `reqwest`,
  reads and writes JSON with `serde` (through copies of the data types that carry
  the derives), sleeps between retries with `tokio`, and keeps the token cache
  behind a mutex.
* `tests/` runs the library on concrete values.
