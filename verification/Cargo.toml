[package]
name = "fdb_future"
version = "0.1.0"
edition = "2021"
publish = false

[dependencies]
futures = "0.3"
foundationdb-sys = { version = "0.8", default-features = false, features = ["fdb-7_1", "embedded-fdb-include"] }
