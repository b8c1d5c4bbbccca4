# crud

A REST service for users (list, get, create, update, delete over
PostgreSQL), a console number-guessing game, and a small demo of `String`
ownership. The logic lives in `src/` and is verified with Verus; `app/` holds
the program around it: Axum routing and handlers, the SQL store, logging,
reading the environment and the console.

Run `app` with no argument to serve the API, with `guess` to play the game,
or with `orb` for the ownership demo.

Each user request is a small state machine (`src/service.rs`): it names the
store calls to make, and decides the reply from the store's answers. Its
contracts state, among other things, that a create or update never gives an
email that another user has, that a missing user is answered 404, and that a
request makes at most two store calls.
