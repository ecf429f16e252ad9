[package]
name = "cargo_clearlydefined"
version = "0.1.0"
edition = "2021"
publish = false

[dependencies]
anyhow = "*"
cargo-lock = "*"
clap = { version = "*", features = ["derive"] }
futures = "*"
log = "*"
prettytable-rs = "*"
reqwest = { version = "*", default-features = false, features = ["json"] }
semver = "*"
serde_json = "*"
simplelog = "*"
spdx = "*"
tokio = { version = "*", features = ["macros", "rt-multi-thread"] }
