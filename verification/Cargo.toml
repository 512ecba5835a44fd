[package]
name = "fdb_rows"
version = "0.1.0"
edition = "2021"
publish = false

[dependencies]
foundationdb-sys = { version = "*", default-features = false, features = ["fdb-7_1", "embedded-fdb-include"] }
