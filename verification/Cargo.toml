[package]
name = "validate-xml"
version = "0.2.0"
edition = "2021"
publish = false

[dependencies]
atty = "0.2"
cacache = { version = "13", default-features = false, features = ["tokio-runtime", "mmap"] }
chrono = { version = "0.4", features = ["serde"] }
clap = { version = "4", features = ["derive"] }
dirs = "5"
futures = "0.3"
libc = "0.2"
moka = { version = "0.12", features = ["future"] }
num_cpus = "1"
regex = "1"
reqwest = { version = "0.12", default-features = false, features = ["stream", "rustls-tls"] }
serde = { version = "1", features = ["derive"] }
serde_json = "1"
thiserror = "1"
tokio = { version = "1", features = ["full"] }
toml = "0.8"
