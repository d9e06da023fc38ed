[package]
name = "os_bulk_index"
version = "0.1.0"
edition = "2021"
publish = false

[dependencies]
sha2 = "=0.11.0"
hex = "=0.4.3"
chrono = "=0.4.45"
colored = "=3.1.1"
anyhow = "*"
clap = { version = "*", features = ["derive"] }
tokio = { version = "*", features = ["rt-multi-thread", "macros", "sync", "time"] }
futures = "*"
reqwest = { version = "*", default-features = false }
indicatif = "*"
flate2 = "*"
bzip2 = "*"
zstd = "*"

[dev-dependencies]
regex = "*"
