# smolvm

Machines that run in small virtual machines: their records, what is done to them
and in which order, the HTTP API that serves them and the command line that
drives them.

## Layout

- `src/` is the library. Every function in it is verified by Verus against its
  `requires` and `ensures`.
- `tests/` runs the library.
- `app/` is ordinary Rust around the library. It performs what the library asks
  for: it reaches machine processes, guest agents, disks and registries through
  the `Host` trait, serves HTTP through `axum`, and parses arguments with `clap`.

## How the library is built

Every type of the library has a model, a value of mathematics that contracts
speak of (`model.rs`). Nothing in the library waits or touches the machine it
runs on. An operation that does is a function from what is known so far to what
is to be done next: `next_start_step` takes a request and a `StartProgress` and
gives a `StartStep`. The caller performs the step, notes the outcome in the
progress and asks again, until the step is `Finish`.

| Modules | What they decide |
| --- | --- |
| `model`, `text`, `bytes`, `json` | models, text, bytes as text, JSON values |
| `types`, `error`, `secrets`, `requests`, `records` | values, errors, secret references, requests, records of machines |
| `env`, `update`, `update_flow`, `resize` | environments, changes of a record, updates, disk sizes |
| `lifecycle`, `create`, `fork`, `guest`, `session`, `monitor` | start, stop and delete; creation; forks; work in guests; sessions; monitoring |
| `operation`, `service` | the catalogue of operations and their routes, the service |
| `api`, `http_create`, `sse`, `interactive`, `logs`, `web`, `drain` | requests over HTTP, event streams, terminals, logs, origins and metrics, draining |
| `commands`, `flags`, `create_cmd`, `run_cmd`, `listing`, `cli` | the command line |

Laws that relate several functions are public proof functions whose names start
with `law_`.

What is believed without proof stands behind functions whose doc comments name
the outside function that they call: `serde_json` (`json.rs`), `humantime`
(`listing.rs`), the header values of `axum` (`web.rs`), and two functions of the
standard library (`text.rs`, `bytes.rs`).
