[package]
name = "mssql_odbc"
version = "0.1.0"
edition = "2021"
publish = false

[dependencies]
mssql-tds = "=0.3.0"
tokio = { version = "=1.54.1", features = ["rt-multi-thread"] }
tracing = "=0.1.44"

[dev-dependencies]
mssql-tds = { version = "=0.3.0", features = ["test-util"] }
