[package]
name = "nomi_core"
version = "0.1.0"
edition = "2021"
publish = false

[dependencies]
itertools = "*"
sha1_smol = "*"
serde = { version = "*", features = ["derive"] }
serde_json = "*"
serde_yaml = "*"
toml = "*"
tokio = { version = "*", features = ["rt", "rt-multi-thread", "macros", "fs", "io-util", "sync"] }
reqwest = { version = "*", default-features = false, features = ["json"] }
futures-util = "*"
anyhow = "*"
thiserror = "*"
once_cell = "*"
async-trait = "*"
