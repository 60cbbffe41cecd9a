# dns-guard

System-wide encrypted DNS proxy. It listens on `127.0.0.2:53`, forwards every
query over DNS-over-HTTPS or DNS-over-TLS to Cloudflare, Google or Quad9, points
the system's DNS at itself while it runs, and afterwards sets it to what it was
set to before.

The project is a Verus library with a thin program around it.

- `src/` holds everything that decides or computes. Loops that mix decisions
  with I/O are state machines: a step says what to do, an event says what came
  of it.
- `app/` performs the steps: sockets, TLS, HTTP, files, processes, the command
  line.
- `tests/` runs the library on concrete values.

| Module | Contents |
|---|---|
| `wire` | DNS messages: names, TTLs, transaction IDs, truncation, SERVFAIL |
| `cache` | TTL-aware response cache |
| `provider` | modes, providers, strategies, failover, endpoints |
| `doh`, `dot`, `quad9` | requests, framing, connection pools |
| `relay`, `udp`, `tcp` | resolving, dispatching, the relay's loops |
| `config`, `state` | settings, hot reload, settings file, stored state, paths |
| `service`, `stop`, `logs` | the control daemon |
| `platform`, `restore`, `standalone` | changes to the system and undoing them, the life of a proxy |
| `client`, `rest` | what the client prints and the REST interface answers |
| `json`, `text`, `clock` | documents, strings, time |

Functions named `law_...` state what holds across functions.
