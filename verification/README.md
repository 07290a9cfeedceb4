# chronicle

The decision core of a service that records sessions: consent tokens, the user
directory, and the filtering of live events for WebSocket clients. What it does
is stated in contracts and proved with Verus.

- `src/db/` holds the rows and what the queries over them select, change and
  return.
- `src/routes/` holds the request handlers. A handler that works through calls
  to the database or to other services is a flow: it names the next call, takes
  the reply, and ends in an answer. `consent_laws.rs` and `users_laws.rs` state
  what holds of every run.
- `src/routes/ws.rs` holds topics, subscriptions, the admission of connections,
  and what a connection does on each event; `ws_laws.rs` states what holds of
  every connection.
- `src/ids.rs` holds identifiers. Reading and writing a UUID is left to the
  `uuid` crate; the two functions that call it are the only trusted ones.
- `app/` is the service around the library: SQL, HTTP and WebSocket plumbing.
  It hands the rows that it read to `consent_tokens::validate` and `revoke`, and
  to `users::get` and the listings. Not so for the writes that are one SQL
  statement each: of `users::upsert` and `users::set_admin` the library models
  what the statement does, and the service runs the statement;
  `consent_tokens::create` makes the new row of the columns that the statement
  returned, and the statement, not it, fills the table.
  The modules of the service that are not here are reached through the trait
  `Siblings`.
