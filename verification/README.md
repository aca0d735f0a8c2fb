# looker

Looker watches one Smart Campus application: it fetches the application's
location context from the registry service (Bran), feeds it with sensor
messages from MQTT or Redis, checks it against the clock at a fixed interval,
serves it over HTTP and forwards it back to the registry.

- `src/` is the verified library (Verus): the decisions the service takes
  and the reading of its inputs. The updates of the application's state are
  made by the service, since they can stop it on values the library cannot
  describe.
  - `axe`: the registry URLs, the fetch of the location context and the
    forwarding of the state.
  - `app`: reading sensor messages and reporting what came of them.
  - `eyes`: the timeout-check report, the Redis client and the Redis listening session.
  - `red`: the Redis connector and listener types.
  - `retry`, `settings`: repeated attempts and configured intervals.
  - `utils`: command-line arguments, project paths and file checks.
  - `foreign`: the types of other crates that the library carries.
- `app/` is the service around it: configuration from the environment,
  networking, waiting, locking and logging.
- `tests/` runs the library on concrete values.
