[package]
name = "pacaptr"
version = "0.1.0"
edition = "2021"
publish = false

[dependencies]
regex = "1"
which = "*"
is-root = "*"
clap = { version = "4", features = ["derive", "cargo"] }
figment = { version = "*", features = ["toml", "env"] }
serde = { version = "1", features = ["derive"] }
dirs-next = "*"
dialoguer = { version = "*", features = ["fuzzy-select"] }
console = "*"
ctrlc = "*"
thiserror = "*"
