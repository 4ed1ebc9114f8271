# Klovy Chat server

The backend of Klovy Chat: accounts, logins and second factors, friends and contacts, direct
messages and channels, calls and voice rooms over WebSocket, and the jobs around them.

## Layout

- `src/` is the library: what a request or a frame leads to, what is stored, what is answered,
  and who is told. Work outside the library (the database, the object store, hashing, sockets)
  comes in as answers: a function takes what is known so far and says what to do next.
- `app/` is a server around it: HTTP under `/api/auth` with Actix, sockets with Axum, MongoDB,
  settings from the environment, and the periodic jobs. Services of a deployment (password
  hashing, storage of files, message contents, caches) are methods of the `Platform` trait in
  `app/platform.rs`. The binary comes with `Detached`, a platform without any services: it
  refuses whatever needs one. There are no routes for `controllers::contacts` and
  `controllers::friends` yet; a server that mounts them runs their functions as `app/` runs the
  others.
- `tests/` runs the library on concrete values.

## Reading the library

- `reply`, `answers`, `lists`, `text`, `ids` and `time` are the vocabulary of the other modules.
- `model` holds users, refresh tokens, friend requests and messages: which of them are meant, and
  what is changed of them.
- `controllers` and `routes` decide over HTTP requests, `ws` over sockets and their frames,
  `utils` and `startup` over settings, tokens, sign-up quotas and the deletion of accounts.
- A function `f` that decides has a spec function `f_next` (or one named in its contract) that
  says what it returns; the public proof functions beside it state what holds of all its inputs.

- `ws::frames` says what a frame is: its event, who gets it and its fields. Each module of `ws`
  gives the frames of its steps.

How a message or a file is shown, and the JSON that carries an answer or a frame, is put together
in `app/`.

Identifiers are parsed and written with `bson`, random values come from `rand` and `uuid`, bytes
are written in hexadecimal with `hex`: the functions that call these crates are the ones marked
`external_body`, each with what it relies on.
