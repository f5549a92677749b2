[package]
name = "dnp3"
version = "0.1.0"
edition = "2021"
publish = false

[dependencies]
tokio = { version = "1", default-features = false, features = ["io-util", "macros", "rt", "sync", "time"] }
tracing = { version = "0.1", default-features = false }
xxhash-rust = { version = "0.8", default-features = false, features = ["xxh64"] }
