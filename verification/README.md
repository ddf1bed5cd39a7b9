# service_kit

Building blocks of a service, verified with Verus: the configuration that it reads
from its environment, the dispatcher that takes messages from a broker to their
handlers, and the spans under which its HTTP requests are traced.

- `src/` is the library. It decides and computes, and every function of it has a
  contract. Files, sockets, brokers, tracers and secret managers are not its
  business: what they answer comes in as plain values.
  - `configs`, `settings`, `env_keys`: the configuration, the settings that
    environment variables fill, and the names of those variables.
  - `configs_builder`, `building`: how variables fill the configuration, and the
    steps in which it is built.
  - `topic`, `dispatcher`: topic filters, and the routing of messages.
  - `http_tracing`, `span`: what is told to a tracer.
  - `text`, `encoding`: text, numbers in text, and Base64.
- `app/` is the ordinary Rust around it: the process environment, the broker
  connection, the tracer and the HTTP middleware.
- `tests/` runs the library.

What is trusted instead of proved is marked `external_body` and says so: Base64
decoding, the check that bytes are UTF-8, and the reason phrases of HTTP statuses.
