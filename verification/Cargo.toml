[package]
name = "rustltfs"
version = "0.1.0"
edition = "2021"
publish = false

[dependencies]
chrono = "0.4"
uuid = { version = "1", features = ["v4"] }
sha1 = "0.10"
sha2 = "0.10"
md5 = "0.7"
blake3 = "1"
xxhash-rust = { version = "0.8", features = ["xxh3"] }
hex = "0.4"
twox-hash = "1.6"
