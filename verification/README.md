# proton-pass-broker

A Unix-socket broker around the Proton Pass command line tool, for automation
that must resolve scoped `pass://` or `proton://` references without receiving
the Proton Pass token or session.

`src/` holds the decisions of the broker as a library that is verified with
Verus. `app/` is the process around it: arguments, environment, files, child
processes, sockets, clocks and logging. Two things that the broker promises are
kept there and not verified: a lock gives one job at a time the use of pass-cli,
and the payload of a request is read as a JSON object with exactly the members
`reference` and `reason`.

| Module | What it decides |
| --- | --- |
| `text` | characters: trimming, searching, splitting |
| `encoding` | strings out of bytes, by way of the standard library |
| `error` | errors, their messages, and which of them name a damaged session |
| `config` | the settings that the environment gives |
| `reference` | which references and reasons are valid, and the lookup arguments |
| `token` | which token file is private and what token it holds |
| `command` | the pass-cli commands, their environment and their output |
| `session` | when to probe, log in, purge and look up |
| `session_laws`, `session_outcome` | what holds of whole jobs |
| `json`, `http` | which request is answered how |
| `server` | the life of the socket |
| `schedule` | when the session is checked, and what follows a failed check |
| `healthcheck` | what the healthcheck client asks, its time limits and its verdict |

An operation that alternates with the outside world is a job. It asks for an
action, is told in an event what came of it, and asks for the next action, until
the action is its result.
