[package]
name = "edr_lite"
version = "0.1.0"
edition = "2021"
publish = false

[dependencies]
anyhow = "=1.0.104"
axum = "=0.8.9"
bincode = { version = "=2.0.1", features = ["serde"] }
chrono = "=0.4.45"
ctrlc = "=3.5.2"
libbpf-rs = "=0.25.0"
libc = "=0.2.191"
once_cell = "=1.21.4"
plain = "=0.2.3"
redb = "=4.4.0"
reqwest = { version = "=0.12.28", default-features = false, features = ["json"] }
serde = { version = "=1.0.229", features = ["derive"] }
serde_json = "=1.0.154"
sigma-rust = "=0.7.0"
structopt = "=0.3.26"
tokio = { version = "=1.54.1", features = ["full"] }
yara-x = { version = "=1.22.1", default-features = false, features = ["constant-folding", "default-modules", "exact-atoms", "fast-regexp"] }
