[package]
name = "snowdrop"
version = "0.1.0"
edition = "2021"
publish = false

[dependencies]
clap = { version = "4", features = ["derive"] }
colored = "2"
config = "0.13"
current_platform = "0.2"
dialoguer = "0.10"
directories = "5"
globset = "0.4"
log = "0.4"
miette = "5"
octocrab = "0.19"
once_cell = "1"
reqwest = { version = "0.11", features = ["json"] }
rust-fuzzy-search = "*"
secrecy = { version = "0.8", features = ["serde"] }
serde = { version = "1", features = ["derive"] }
styled_env_logger = "*"
thiserror = "1"
tokio = { version = "1", features = ["full"] }

[dev-dependencies]
regex = "1"
