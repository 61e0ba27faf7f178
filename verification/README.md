# bamboo_storage

The session store of Bamboo: sessions, their children and attachments on disk, with an index of
them that can be rebuilt.

A session is kept in two files. `session.json` holds everything, `runtime.json` everything but
the message history, so that a change of the control plane costs no rewrite of the history. Task
lists that two sessions share are replaced in both or in neither, copies of a session appear
complete or not at all, and a deleted root stays deleted until it is recreated on purpose.

## Layout

- `src/` is the library. It decides: what a save may write, which of two versions wins, what a
  journal left by a crash asks for, which entries an index holds. Every decision has a contract,
  and what holds across decisions is stated as a public proof function under the heading "laws" of
  its module. Nothing in it reads or writes a file.
- `app/` does the reading, writing and locking. Operations that alternate between files and
  decisions run a state machine of the library step by step: it names the next step, `app/`
  carries it out and hands the outcome back.
- `tests/` runs the library on concrete values.

## Modules

| Topic | Modules |
| --- | --- |
| Values | `text`, `time`, `strmap`, `textset`, `error`, `session`, `probe`, `paths` |
| Reading and saving | `load`, `save`, `index`, `rebuild`, `opening`, `store` |
| Shared Tasks | `task_journal`, `task_protocol`, `task_recovery`, `recovery_target` |
| Copies | `copy`, `copy_protocol`, `copy_recovery` |
| Concurrent writers | `session_merge`, `locked_store`, `publishing` |
| Roots | `supervisor`, `supervisor_management`, `root_publication`, `root_context`, `root_lifetime`, `root_fence` |
| Removing | `cleanup`, `deletion` |
| The rest | `attachments`, `metrics`, `search_queue` |
| Outside crates | `outside` |

`outside` holds the calls into `sha2`, `base64`, `uuid` and `chrono`. Their contracts are believed,
not proved; the comment above each says what is claimed.
