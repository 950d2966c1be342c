[package]
name = "qlue_ls"
version = "0.1.0"
edition = "2021"
publish = false

[dependencies]
rowan = "*"
regex = "*"
serde = { version = "1", features = ["derive"] }
serde_json = "1"
serde_repr = "*"
config = { version = "*", default-features = false, features = ["toml", "yaml"] }
