[package]
name = "dlnaproxy"
version = "0.1.0"
edition = "2021"
publish = false

[dependencies]
chrono = "*"
clap = { version = "*", features = ["derive"] }
fern = "*"
log = "*"
nix = { version = "*", features = ["socket"] }
quick-xml = { version = "*", features = ["serialize"] }
reqwest = { version = "*", default-features = false }
serde = { version = "*", features = ["derive"] }
tokio = { version = "*", features = ["rt-multi-thread", "net", "time", "signal", "macros"] }
toml = "*"
