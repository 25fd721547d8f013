[package]
name = "uv_conflicts"
version = "0.1.0"
edition = "2021"
rust-version = "1.95"
publish = false

[dependencies]
hashbrown = "*"
schemars = "*"
serde = { version = "*", features = ["derive"] }
thiserror = "*"
uv-normalize = { version = ">=0.0.1, <0.0.50", features = ["schemars"] }

[dev-dependencies]
serde_json = "*"
