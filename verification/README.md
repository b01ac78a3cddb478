# kirc

The verified core of a desktop IRC client.

`src/` is the library, written in Verus and proved:

- `types`, `error`: server configuration, status, commands and the errors
  the client answers with.
- `state`: the application lifecycle (`app`), the channels of a server
  (`channel`), the connection state machine of a server (`server`) and the
  set of all servers with their persistence (`kirc`). Each server keeps, in
  its view, the commands handed to its connection task and the aborts of
  its tasks, so that the contracts say what goes over the connection.
- `persistence`, `memento`: the records that are saved and restored.
- `manager`: connecting, disconnecting, joining, leaving, locking channels,
  sending messages and shutting down.
- `actor`: what a connection task does with each incoming IRC message, each
  command and each stream failure.
- `ctcp`: CTCP request parsing and replies.
- `commands`, `events`, `menu`: what is listed to and announced to the user
  interface, and what its menu items ask for.
- `trusted`: the calls into std, tokio, uuid, chrono and irc that the proofs
  rely on, each with the contract its documentation gives.

`app/` is the Tauri shell: window and tray, JSON files, logging, the IRC
connection tasks and the commands and events of the front end. It hands
plain values to the library and carries out what the library decides.

`tests/` runs the library on concrete values.
