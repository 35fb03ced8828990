# mssql_odbc

The handle layer of an ODBC driver for SQL Server, verified with Verus:
environment, connection, statement and descriptor handles, and the statement
attributes that `SQLSetStmtAttrW` and `SQLGetStmtAttrW` set and read.

- `src/api` - ODBC types and constants, diagnostics, statement attributes.
- `src/handles` - the handle table, the four handle types, and their lifecycle.
- `src/laws` - what holds across operations.
- `src/external.rs` - the types of `mssql-tds` and `tokio` that handles carry.
- `app` - the C entry points: pointers, locking, logging, panics.

A handle is the address of an object in a `HandleTable`. `well_formed` in
`src/handles/lifecycle.rs` is the table's invariant: allocating and freeing
handles, and setting and reading attributes, keep it. `stmt_mut`, `dbc_mut` and
`StmtHandle::new` hand out parts of a table, and leave it to their caller.
