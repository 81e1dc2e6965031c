# rdashboard

The rules of a deployment dashboard, written in Verus: what an operation may do next, what counts as
evidence of it, and what is refused.

- `src/domain` holds the documents: identifiers, phases and plans, manifests and workflow policies,
  leases and receipts, failure capsules, redaction and disk budgets.
- `src/controller` decides about requests: which are admitted, and how a stored operation moves.
- `src/executor` carries phases, write fences, recoveries and operations out, one step at a time. A step
  says what is done next; what came back of it decides the step after.
- `src/deploy_driver` drives a deployment from an accepted mutation to a committed release.
- `src/execution_receipt` writes down how a step began, ended and was cleaned up.
- `src/executor_intent` signs and verifies intents, and `src/executor_authority` loads the keys.
- `src/dependency_fetch`, `src/executor_socket` and `src/fence_adapter` are the protocols.
- `src/json`, `src/text`, `src/paths` and `src/unique_id` are what the rest is built on.

Contracts speak of the spec functions beside the code: the JSON text of a document, the plan of an
operation, the step that follows a step. Proof functions whose names begin with `law_` state what
holds across functions. Functions marked `external_body` call other crates; their doc comments say
what is relied on.

`app` runs the library: it opens the sockets and files, keeps the controller's tables, talks HTTP, and
reads documents with serde.
