# Pessimal

A verified core for a fleet-monitoring client: what is decided about hosts, metrics and
alerts, what is reported about the client itself, and the records that cross to the apps.
Every function of the library states what it does, and Verus proves it.

## Layout

| Where | What |
|---|---|
| `src/domain` | URNs, hosts, metrics and series, liveness, alert rules and their evaluation |
| `src/usage` | Usage spans: the attribute allowlist, consent, the OTLP/JSON encoding |
| `src/otlp` | Where usage reports go, what is posted, and what an answer comes to |
| `src/client` | The values that the client core folds and projects, and the audit of a configuration |
| `src/ffi` | Records in shapes that cross to the apps, the usage reporter, the session |
| `src/time.rs`, `src/ident.rs` | chrono's instants and spans, uuid's identifiers, as plain integers and bytes |
| `src/text.rs`, `src/text_map.rs`, `src/number.rs`, `src/json.rs` | Strings, ordered maps, IEEE numbers as bits, JSON documents |
| `tests` | Scenarios, run against the compiled library |
| `app` | The rest of the client: HTTP, locks, the environment, stored JSON, the ports |

## What is trusted

The calendar is chrono's, identifiers are the uuid crate's, and quoting is the standard
library's. Each call stands behind a small function in `src/time.rs`, `src/ident.rs` or
`src/text.rs`, whose doc comment says what is claimed of it. Where a result takes pages to
describe it has a name instead (`timestamp_text`, `parsed_uuid`, `quoted`). What an app's own
code throws across the boundary is read from uniffi's error in `src/ffi/convert.rs`, as the
reason that the error carries (`callback_reason_text`).

Numbers are held as the bits of IEEE 754 doubles. They are compared in `src/number.rs`;
adding them up and writing them in decimal is left to `app`.
