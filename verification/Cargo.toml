[package]
name = "pushshift_importer"
version = "0.1.0"
edition = "2021"
publish = false

[dependencies]
ahash = "0.8"
anyhow = "1"
bzip2 = "*"
chrono = { version = "0.4", default-features = false, features = ["std"] }
clap = { version = "4", features = ["derive"] }
fallible-streaming-iterator = "0.1"
flate2 = "1"
log = { version = "0.4", features = ["kv"] }
num_cpus = "1"
radix_fmt = "1"
rusqlite = "*"
serde = { version = "1", features = ["derive"] }
serde_json = "1"
serde_with = "3"
structured-logger = "1"
strum = { version = "*", features = ["derive"] }
uuid = { version = "1", features = ["serde"] }
xz2 = "0.1"
zstd = "0.13"
