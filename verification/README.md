# ashford

The verified core of a self-hosted e-mail automation agent for Gmail: the
rule engine that classifies incoming messages, the prompt and decision
handling around the language model, the job-queue and worker policies, the
Pub/Sub listener supervision, and the request logic of the web API.

## Layout

- `src/` — the library, written in Verus. Every function carries a contract
  over mathematical models (`Seq`, `Set`, spec functions), and the laws the
  system relies on are stated and proved as `lemma_*` proof functions:
  - `rules/` — condition trees and their evaluation, rule ordering and
    selection, stored names;
  - `llm/` — prompt assembly, decision extraction and validation, provider
    error classification and retry delays, the scripted client;
  - `queue.rs`, `worker.rs` — retry and back-off policy, persisting job
    outcomes;
  - `pubsub.rs`, `pubsub_listener.rs` — notification payloads, idempotency
    keys, listener reconciliation;
  - `api/` — rule creation and partial updates, the priority-swap and undo
    protocols, list filters;
  - `text.rs` — character-level string helpers with specifications.
- `tests/` — executable tests of the library.
- `app/` — the command-line front end and everything that needs serde
  derives, floating point or I/O.

Multi-step operations that talk to the database (swapping priorities,
undoing an action, persisting a job outcome, loading rules) are written as
state machines: the library decides the next step from the current state and
the last result, and the caller performs the step.
