# bob_fusion

The verified core of the BobFusion scheduler: routes checked against an
OpenAPI description, the server configuration and its defaults, the logger
set-up decisions, and the types of a Bob storage cluster.

- `src/router.rs`: `ContextRouter`, which adds routes to an `axum::Router`
  under an API version's context path, checks each one against an API
  description and keeps every error met; method conversions; laws.
- `src/openapi.rs`: the part of an OpenAPI description that routes are
  checked against.
- `src/text.rs`: route templating (`:id` to `{id}`) and handler short names.
- `src/args.rs`, `src/cli.rs`: configuration, its defaults, and the choice
  between the default configuration and a configuration file.
- `src/config.rs`: which loggers to set up and which CORS policy to apply.
- `src/scheduler.rs`: the scheduler's API version, its router, its greeter
  and its start-up errors.
- `src/connector.rs`: the storage connector's requests (`get`, `put`,
  `delete`, `exist`), their timestamp, and how each reply is read.
- `src/cluster.rs`: the cluster description types.
- `app/`: the server program: argument parsing, reading YAML, installing
  the tracing subscriber, serving with axum, and the asynchronous
  `Connector` over any storage client.
