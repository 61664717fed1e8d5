[package]
name = "ledger_service"
version = "0.1.0"
edition = "2021"
publish = false

[dependencies]
anyhow = "1"
chrono = "0.4"
clap = { version = "4", features = ["derive"] }
fern = "*"
humantime = "2"
log = "0.4"
mobc = "0.8"
mobc-postgres = "0.8"
serde = "1"
serde_derive = "1"
serde_json = "1"
tokio = { version = "1", features = ["macros", "rt-multi-thread", "signal"] }
toml = "*"
warp = "0.3"
