# san_andreas_unbound

An open.mp game mode (freeroam with account registration and login), split in two:

- `src/` is the verified library (Verus):
  - `timer` — the registry of active timers: ids, killing, and what a server tick does
    with the timer events that fired.
  - `auth` — the authentication state machine: which players are asked to register or to
    log in, and what a dialog answer or a database reply leads to.
  - `password` — bcrypt hashing at registration and password checks at login.
  - `session` — failed-login counting and kicking, and the account data of logged-in
    players (spawn, death, disconnect).
  - `text` — database statements and chat messages, including decimal rendering.
- `app/` is the plugin around it: the open.mp event callbacks, MySQL access on a thread
  pool, and the `timer` crate's scheduling thread.
- `tests/` exercises the library on concrete values.
