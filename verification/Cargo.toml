[package]
name = "supervisor"
version = "0.1.0"
edition = "2021"
publish = false

[dependencies]
crossbeam = "=0.8.5"
nix = { version = "=0.31.3", features = ["signal", "process"] }

[dev-dependencies]
toml = "*"
