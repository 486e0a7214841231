[package]
name = "rs_query"
version = "0.1.0"
edition = "2021"
publish = false

[dependencies]
arrow = { version = "*", default-features = false }
csv = "1"
sqlparser = "*"
anyhow = "1"
tracing = "0.1"
