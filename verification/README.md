# lan_transfer

Chunked file transfer between devices on a local network: the rules that a sender and a
receiver follow, written in Verus and proved, apart from the sockets and files they follow
them on.

* `src/` is the library. Each request is a small state machine: a step takes the outcome of
  the last outside action and says which action comes next. The contracts are stated over the
  registry of transfers, the tasks and the answers; `src/receiver/laws.rs` and the ends of the
  other modules hold what is true over several requests.
* `tests/` runs the machines on values, with a file system and a history kept in memory.
* `app/` carries out the actions: files, directories, the intent journal, history, peers and
  events.
