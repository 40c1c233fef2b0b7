# nautilus-oanda

The OANDA V20 adapter core, verified with Verus.

- `src/common`: constants, the trading environment, REST base URLs, credentials,
  and the handles of cancellation tokens and background tasks, which record
  whether they were cancelled or aborted.
- `src/config.rs`: the data client configuration and how it resolves the
  environment and the base URL.
- `src/http/models.rs`: the REST payloads; every enumeration converts to and
  from its wire code, and the two conversions are proved inverse.
- `src/http/client.rs`, `error.rs`, `retry.rs`: how requests are built, which
  responses are accepted, and when and after how long a failed request is
  retried.
- `src/data`: the data client's connection state, instrument cache and answers
  to instrument requests.
- `app/`: JSON decoding, the HTTP transport and the asynchronous steps, around
  the verified library.
