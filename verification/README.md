# hive_gateway

The decision logic of two small services, verified with Verus:

* the **data gateway**, which answers `GET /query_range` with a device's
  temperature series from Prometheus, for users who own the device, and which
  brings its PostgreSQL database up at start;
* the **telemetry proxy**, which records reported metrics into OpenTelemetry
  gauges and checks bearer tokens.

Layout:

* `src/` — the verified library. Each endpoint or start-up sequence that waits
  on a database or the network is a step function: it takes the outcome of the
  previous step and returns the next state and the next action
  (`database::DatabaseProvisioner`, `user_auth::UserLookup`,
  `authz::QueryRangeRequest`). Pure decisions (`routes::assess_metrics`,
  `telemetry::MetricFactory::create`, `auth::read_bearer_token`, …) are plain
  functions. Laws are public proof functions next to the code they are about.
* `app/` — the binary: axum routers, sqlx queries, reqwest calls,
  OpenTelemetry exporters and the JWK cache, driving the library's steps.
* `tests/` — tests of the library on concrete values.
