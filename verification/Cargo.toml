[package]
name = "pixi_build_backend"
version = "0.1.0"
edition = "2021"
publish = false

[dependencies]
rattler_conda_types = "*"
serde = { version = "*", features = ["derive"] }
serde_json = "*"
toml = "*"
tempfile = "*"
