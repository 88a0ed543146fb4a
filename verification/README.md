# work_application

Application services of the Work bounded context — projects and backlogs, project
members, formal work items, promotions, dependencies and blockers, iterations, the
authorized read side, inbound event consumers, the outbox publisher and the operations
jobs — written in Verus.

Every service talks to its repositories and ports through awaited calls. The library
holds what the services decide between those calls, with contracts:

- `transaction` — reserving an idempotency key (commands and jobs) and finishing a write
  (save the result, complete the reservation, commit), as state machines;
- `body`, `steps` — the steps of each protected write in order, and whether a failed step
  rolls the transaction back; `inbound` does the same for reserved inbound events;
- one module per service (`project`, `member`, `workitem`, `promote`, `dependency`,
  `iteration`, `query`, `consumer`, `outbox`, `ops`, `jobs`) — the checks, error
  classifications, truth cursors, stale views and result surfaces of each operation;
- `publication` — the payload of every outbound event kind, rebuilt from the truth that
  backs an outbox record;
- `digest` — the canonical request digests: `serde_json` rewrites a command's JSON text
  canonically and writes JSON strings; the library decides the digest's fields and
  writes the digest objects;
- `laws` — properties that span operations (duplicate replay, single review winner,
  released members, duplicate events, inbound dispositions).

`app/` is the asynchronous boundary: the port traits, drivers that run the library's
machines against them, the services built on them (the project, member, formal work and
promote commands, the queries, the inbound consumers and the operations jobs), the
handlers' protocol answers, and serialized forms of library values.
