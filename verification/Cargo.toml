[package]
name = "sync_2048"
version = "0.1.0"
edition = "2021"
publish = false

[dependencies]
twothousand-forty-eight = "*"
xxhash-rust = { version = "*", features = ["const_xxh3"] }
serde = { version = "*", features = ["derive"] }
postcard = { version = "*", features = ["alloc"] }
