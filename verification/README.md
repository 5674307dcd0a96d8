# key_server_migration

Automated migration of a key server cluster from one set of servers to another.

Each node watches the sets of servers (the current one, the new one, and the migration that may
lead from one to the other), its connections, and the session that carries a migration out. From
these it decides what to do next: start a migration, start its session, confirm it, drop a session
that failed or is obsolete, and which nodes to be connected to.

- `src/` is the library. Every verified function has a contract, and `src/laws.rs` states what holds of
  migrations as a whole: that one node leads, that a session starts only once all nodes are
  connected, that the session which the master starts is admitted by every node that knows of the
  same migration, that an obsolete session is forgotten and does not count, and so on.
- `app/` runs the library inside a key server: it reads the set of servers, watches the running
  session, signs, talks to the cluster, and keeps the trigger behind a lock that threads share.
- `tests/` runs the library on concrete values.

One outside function is trusted: `ethcore-bigint` draws the identifier of a new migration at random.
