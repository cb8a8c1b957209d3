[package]
name = "crate_context"
version = "0.1.0"
edition = "2021"
publish = false

[dependencies]
cargo_metadata = "*"
pathdiff = "*"
serde = { version = "1", features = ["derive"] }
textwrap = "*"
