# citra_web

The account, session and moderation logic of a game-lobby web service, written in
Verus and proved against its contracts.

- `src/` is the verified library:
  - `models` — accounts, sessions, ban list, token claims, limits, request headers;
  - `text` — character-level helpers (decimal notation, substring search, trimming);
  - `table` — a keyed table viewed as a finite map, with its lemmas;
  - `outside` — the trusted calls into `regex`, `bcrypt`, `uuid` and `chrono`;
  - `rules` — the username grammar and the ban-word matching;
  - `service` — the state, the answers, and the admin check;
  - `accounts`, `admin`, `auth`, `rooms` — the endpoints, each as a state transition
    with an exact contract;
  - `laws` — properties that span several requests.
- `app/` is the Rocket service around it: routes, JSON, the files the tables are kept
  in, RSA keys and token signing.
- `tests/` runs the library with the real outside crates.
