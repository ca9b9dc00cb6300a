# ticket-flow-core

A ticket store for coding agents, written in Verus. Tickets move through a
small workflow (`open`, `doing`, `review`, `blocked`, `done`), carry
checkpoints, links, logs, evidence, handoffs and approvals, and are projected
into views, context packs and compact `ticket.*` events for a clawhip daemon.

## Layout

- `src/` — the verified library. Every decision of the store is a function
  with a contract: identifier allocation, status transitions, checkpoints,
  imports, gates, views, context packs, clawhip projection and delivery
  outcomes, the command-line and MCP inputs. `src/laws.rs` and a few
  `law_*` proof functions beside the code state what holds across
  operations.
- `tests/` — tests of the library on concrete values.
- `app/` — the `ticket-flow` program: the JSON files on disk, the HTTP
  delivery, the environment, the clap command line and the MCP stdio server.
  Run as `ticket-flow-mcp` it serves MCP.

The store on disk keeps `active/<id>.json`, `archive/YYYY-MM/<id>.json`,
`events/<id>.ndjson` and `index.json` under `TICKET_FLOW_HOME` (by default
`~/.ticket-flow/tickets`).
