# Jingwei

Infrastructure for agent runtimes whose every step can be accounted for: what a task may
spend, which calls a model and its tools make, what a session records of them, and how a
task goes on after an interruption. The library is written in Verus. Each function states
what it returns, and the statements are proved.

## Layout

- `src/budget` – ledgers of tasks: reservations, settlements, sealed images, grants,
  leases and recovery.
- `src/session` – session events, their logs and file names.
- `src/generation.rs`, `src/generation_shape.rs`, `src/llm` – model requests and answers,
  the schedule of calls, what is recorded of them and what may be shown.
- `src/tool` – registrations, schemas, the order of consent, recording and retries.
- `src/context` – what of a conversation a model gets to see.
- `src/agent` – turns from admission to their settled end, and a reference agent.
- `src/task` – snapshots of tasks, their stores, and how a task is continued.
- `src/store` – logs of lines, and who may work on them.
- `src/text.rs`, `src/text_order.rs`, `src/json.rs`, `src/time.rs`, `src/id.rs`,
  `src/record.rs`, `src/lifecycle.rs`, `src/harness.rs` – what the others share.

`app` holds the host's side: clocks, files, serialization and everything that awaits.
It performs what the library decides and hands back what happened.

## Models

Values are described by views: texts are sequences of characters, lengths of time are
nanoseconds, and a ledger, a scheduler or a store is the mathematical record that its
`view` gives. What holds across operations is stated in public proof functions beside the
operations, such as `budget::promises`, `llm::scheduler::waiters_go_in_order` or
`session::file_name::file_name_round_trip`.

Times are given by the caller. A point in time is the distance from a start that the
caller's clock keeps.

Three things come from outside and are taken at their word: `serde_json` quotes a string,
`jsonschema` judges schemas and arguments by Draft 2020-12, and the standard library
appends to strings, decodes UTF-8 and shares the events of a turn among their owners.
