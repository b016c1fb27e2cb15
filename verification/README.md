# nostdb-server

The NostDB database server: `nostd`, a daemon that owns a data directory of named Databases and
speaks the database protocol, and `nostdb-server`, an HTTP server of one Database.

Every decision of the server is made in `src/`, a library that Verus verifies. The programs in
`app/` perform what the library decides: they read and write files and sockets, call the storage
engine, and report back what came of it.

## Layout

| Module | What it decides |
|---|---|
| `client` | frames, addresses, the client's side of a connection |
| `protocol` | the server's side: handshake, requests, transactions, uploads, responses |
| `execution`, `wire`, `json` | limits, statements, and the JSON shape of values and results |
| `catalog`, `lifecycle`, `storage` | the catalog, its changes, and its atomic replacement on disk |
| `manage`, `startup`, `setup` | create, rename and drop, start-up recovery, first-time setup |
| `restore`, `recovery`, `durability` | replacing a Database by a snapshot, recovering from an interruption, and what both keep |
| `package`, `path` | logical packages and their module paths |
| `http`, `sessions`, `swap`, `server` | the HTTP surface |
| `config`, `cli`, `time`, `text`, `failure` | configuration, command lines and common ground |

Work that alternates decisions and outside effects is a machine: it names the next action, the
program performs it and reports an event, and the machine moves on. The machines' laws
(`law_...`) say what holds whatever the events are; for the replacement of a Database, that the
original or the snapshot is whole at every moment and that an interrupted replacement is recovered.

Paths are texts in which `/` separates and a leading `/` means the root. On a platform with other
paths the programs hand the library the platform's own reading of each configured path, and that
reading decides.
