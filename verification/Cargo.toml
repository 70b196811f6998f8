[package]
name = "logswise_cli"
version = "0.1.0"
edition = "2021"
publish = false

[dependencies]
serde_json = "*"
serde = { version = "*", features = ["derive"] }
reqwest = { version = "*", default-features = false, features = ["blocking", "json"] }
clap = { version = "*", features = ["derive"] }
clap_complete = "*"
colored = "*"
dialoguer = { version = "*", features = ["fuzzy-select"] }
dirs = "*"
figlet-rs = "*"
indicatif = "*"
