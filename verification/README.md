# mediator

The core of a DIDComm messaging mediator, verified with Verus: rate limiting by client address and
by DID, configuration from the environment, the authorities that count as local, the plans by which
a mediator starts, and a mediator for integration tests.

- `src/` is the library. Every contract in it is proved, but for those of the wrappers around
  functions of other crates and of the standard library, and the one that is given to
  `String::push`. Each says in its comment what is believed of the function it stands for.
- `app/` is what surrounds it: files, sockets, tasks and middleware.
- `tests/` runs the library.

| Module             | What it holds                                                     |
|--------------------|-------------------------------------------------------------------|
| `rate_limiter`     | Which client a request is counted for, and what becomes of it     |
| `did_rate_limiter` | The limit per authenticated DID                                   |
| `buckets`          | The keyed buckets that both limits are built on, and their laws   |
| `limiter`          | The keyed limiters that hold them                                 |
| `env`, `config`, `limits` | The raw configuration, and the variables that override it  |
| `authority`        | The hosts and ports that this mediator answers to itself          |
| `startup`, `server` | The steps of starting, their order, and their errors             |
| `endpoints`        | The URLs and routes under which a mediator is reached             |
| `identity`         | Hashes and token keys                                             |
| `registration`     | Registering DIDs as accounts                                      |
| `test_mediator`, `peer_services` | A mediator for integration tests, and its DID       |
