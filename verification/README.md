# anonpeer

The client of the AnonPeer end-to-end encrypted messenger, as a verified
library and a thin desktop program around it.

- `src/` (verified with Verus): the client's state (`state`), the interface's
  model and its update, which takes each message to a new state and a list of
  effects (`model`, `update`), the wire payloads (`protocol`), the decisions of
  the connection loop (`network`), what the screens show (`display`), the
  local store's decisions (`storage`), text helpers (`text`, `str_map`) and
  properties that span operations (`laws`).
- `app/`: the iced window, the SQLite store, the WebSocket connection, image
  processing, notifications and the calls into the project's cryptography.
  It carries out the effects that the update returns and feeds the answers
  back as messages.
- `tests/`: scenarios run against the compiled library.
