[package]
name = "xps_gateway"
version = "0.1.0"
edition = "2021"
publish = false

[dependencies]
anyhow = "=1.0.104"
ethers = { version = "=2.0.14", default-features = false }
jsonrpsee = { version = "=0.21.0", features = ["macros", "server"] }
log = "=0.4.34"
rustc-hex = "=2.1.0"
serde = { version = "=1.0.229", features = ["derive"] }
thiserror = "=1.0.69"
tokio = { version = "=1.54.1", features = ["macros", "rt", "rt-multi-thread"] }
