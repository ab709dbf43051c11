# stump_sync

Keeps reading progress in step between YACReader libraries and a Stump server.

Page and completion are independent. Each converges upward by default, which
never loses progress. A side may pull the other down only when it alone moved
back since the last synchronisation and its own clock advanced past the
recorded baseline.

## Layout

`src/` is the library. It decides and is verified with Verus; it opens neither a
database nor a connection.

| module | what it decides |
| --- | --- |
| `sync_engine::paths`, `matching`, `discovery` | which comics and which libraries belong together |
| `sync_engine::reconcile` | what state two sides of a comic converge to |
| `sync_engine::ydb` | how pulled progress changes a row of a `.ydb` |
| `sync_engine::convergence` | what one cycle achieves for a comic |
| `sync_engine::model`, `run`, `run_laws` | the steps of a run over all libraries |
| `sync_engine::single`, `engine` | the push of one comic, and the entry points |
| `stump_client`, `graphql` | the requests to Stump, when they are repeated, what an answer means |
| `mapping_db` | the layout of the mapping database and the reading of its rows |
| `runtime`, `ffi` | commands, status, and the answers to the host application |
| `text`, `decimal`, `clock`, `config`, `types` | what the others are made of |

A run, the push of a comic and the exchange of a request are state machines: each
names the next action, takes the reply, and moves on. `app/` carries the actions
out with SQLite, HTTP and a background task, and holds the bridge to the host
application. `tests/` runs the machines against a world kept in memory.

## Trusted

Verus believes, without proof, the contracts of the few functions that call into
`http`, `serde_json` and the standard library: `check_header_value`,
`json_string`, `status_text`, `since_epoch`, and the specifications of
`String::push`, `SystemTime::now` and `Duration::as_secs`.
