# Transactions from a Geyser plugin to PostgreSQL

A Verus library that turns the transactions a Solana validator reports to its Geyser plugins into
rows of a PostgreSQL table, with contracts that say exactly what each row holds.

- `src/replica.rs`: a transaction as the validator reports it
- `src/number.rs`: integers as the database holds them
- `src/message.rs`, `src/meta.rs`, `src/error.rs`: the composite columns
- `src/hash.rs`: the hash of a message
- `src/transaction.rs`: the row
- `src/client.rs`: the statement, its parameters, the write version and the errors that are reported
- `src/laws.rs`: what holds of the rows as a whole
- `tests/`: the same on concrete values
- `app/`: the plugin around the library: the validator's own types, PostgreSQL types, connections

Three things are trusted, and each says so where it stands: the rendering of an instruction error
by the Solana SDK, and the hash of a message by `solana_message`, once for each kind of message.
