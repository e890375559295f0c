[package]
name = "git-workers"
version = "0.1.0"
edition = "2021"
publish = false

[dependencies]
anyhow = "*"
chrono = { version = "*", default-features = false, features = ["alloc"] }
clap = { version = "*", features = ["derive"] }
colored = "*"
console = "*"
dialoguer = { version = "*", features = ["fuzzy-select"] }
git2 = { version = "*", default-features = false }
indicatif = "*"
serde = { version = "*", features = ["derive"] }
toml = "*"
unicode-width = "*"

[dev-dependencies]
tempfile = "*"
