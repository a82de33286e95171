[package]
name = "asfy_vol"
version = "0.1.0"
edition = "2021"
publish = false

[dependencies]
anyhow = "*"
async-channel = "*"
dirs = "*"
glib = "*"
gtk4 = { version = "*", features = ["v4_12"] }
gtk4-layer-shell = "*"
nix = "*"
serde = { version = "*", features = ["derive"] }
toml = "*"
