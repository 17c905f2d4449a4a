# Seam

Seam is a small, compartmentalized agent runtime: an orchestrator that delegates and has no
operational tools, task-scoped workers that know only their ticket, and a capability broker
through which everything external goes.

This crate is its deterministic core, written in Verus. Every function in `src/` carries a
contract that Verus proves; what holds across functions stands beside them as public proof
functions. The core does no I/O: a turn, a command, a worker's run and a brokered request
are machines whose stage says what is to be done outside, and whose step takes what came of
it.

## Layout

| module | what it decides |
| --- | --- |
| `text`, `keyed`, `json`, `ids`, `paths` | texts, named lists, JSON values, identifiers, workspace paths |
| `ordering` | that JSON objects list their members in the order of their names |
| `capability_set`, `protocol`, `policy` | tickets, authority, and the ceiling that every ticket is clamped to |
| `model`, `chat_completions` | model requests, and the one HTTP request shape they are sent in |
| `schema`, `authority`, `broker` | argument validation, grants, shortlist, checks, provider choice, telemetry |
| `work`, `kernel` | the lifecycle of tickets, and the orchestrator's turn |
| `workbench`, `worker` | what a worker may do locally, and its bounded loop |
| `api`, `projection` | client commands, events, and what a client reloads |
| `guarantees` | what holds from one end to the other |
| `demo` | scripts, throwaway ports and narration of the walkthrough |

`app/` is the walkthrough itself: the asynchronous ports, HTTP, files, processes, and the
loops that drive the machines. `tests/` runs the core on concrete values.

## What is believed without proof

- `uuid::Uuid::new_v4` gives a random identifier of version 4.
- The `Display` of `uuid::Uuid` is the hyphenated lower-case form.
- The `Display` of a `serde_json` string escapes quotation marks, backslashes and control
  characters as JSON does.
- `std::path::PathBuf` is carried as it is; nothing is claimed of it.
