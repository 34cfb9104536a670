# RAX FTP Server

An FTP server implementing the core of RFC 959: `USER`/`PASS` login, `LIST`,
`RETR`, `STOR`, `DEL`, `PWD`, `CWD`, passive (`PASV`) and active (`PORT`) data
connections, `LOGOUT`, `QUIT`, and the custom `RAX` command.

The decisions of the server form a library, `src/`, verified with Verus: command
parsing, the login state machine, path normalisation and the confinement of every
file path to the server root, the data channel registry (no data socket is ever
held by two clients), the replies of every command and error, the steps of an atomic upload under the
configured size limit, the wait for a passive data connection, the rate limiter, and the per-line behaviour of a client session. Each
public function states what it returns in its contract, and the properties that
span functions are proved as `law_*` proof functions.

The program around it, `app/`, does the networking (Tokio for control
connections, blocking sockets for data connections), the file system work and the
logging. It runs the loops whose steps the library decides, performing each
action the library names and handing back what came of it.

Layout of `src/`:

- `protocol/` – commands, parser, handlers (one step per command), replies.
- `client/` – client state, registry, session loop decisions.
- `storage/`, `navigate/` – path validation, listing, retrieval, upload, deletion,
  directory changes.
- `transfer/` – data channel registry, passive/active set-up, transfer decisions.
- `auth/`, `config.rs`, `error/`, `middleware/`, `server/`, `net.rs`, `text.rs`.
- `lite/` – a simpler variant of the server that serves each client on its own
  thread and acts on the working directory.
