# effektio

The core of a chat client on top of Matrix, verified with Verus.

- `src/` is the library. It reads the events of a sync (`wire`, `cross_signing`), reports the
  steps of device verifications through bounded queues (`channel`, `handlers`, `sync`), keeps
  the state of the client and its invitations (`state`, `client`), tells groups from
  conversations (`rooms`), leads the operations on a verification (`verification`), takes up
  the application's own events (`executor`) and words what is printed of devices (`report`).
  What holds of all of it together stands in `laws`.
- `tests/` runs the library, with the real `ruma`, `serde_json`, `futures` and
  `futures-signals` behind it.
- `app/` runs the library against a Matrix server.

Nothing in the library waits. Where the server or the encryption layer has to be asked, the
library says what to ask and goes on with the answer; `app/` does the asking.
