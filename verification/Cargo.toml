[package]
name = "cargo-compiler-interrupts"
version = "0.1.0"
edition = "2021"
publish = false

[dependencies]
anyhow = "1"
cargo-util = "=0.2.14"
cargo_metadata = "0.18"
chrono = "0.4"
clap = { version = "4", features = ["derive"] }
colored = "2"
dirs = "5"
indicatif = "0.17"
md5 = "=0.7.0"
num_cpus = "1"
ron = "0.8"
semver = "=1.0.28"
serde = { version = "1", features = ["derive"] }
terminal_size = "0.3"
thiserror = "1"
toml = "0.8"
tracing = "0.1"
tracing-subscriber = "0.3"
ureq = "2"
url = "2"
