[package]
name = "dylint_testing"
version = "0.1.0"
edition = "2021"
publish = false

[dependencies]
anyhow = "=1.0.104"
cargo_metadata = "=0.23.1"
dylint = { version = "=6.1.0", features = ["__driver_from_crates_io"] }
dylint_internal = { version = "=6.1.0", features = ["cargo", "rustup"] }
env_logger = "=0.11.11"
log = "=0.4.34"
serde_json = "=1.0.151"
tempfile = "=3.27.0"
ui_test = "=0.30.6"
