[package]
name = "stdr_sjoint"
version = "0.1.0"
edition = "2021"
publish = false

[dependencies]
anyhow = "1"
clap = { version = "4", features = ["derive"] }
dxf = "*"
serde = { version = "1", features = ["derive"] }
serde_derive = "1"
toml = "*"
