[package]
name = "prisma_engine"
version = "0.1.0"
edition = "2021"
publish = false

[dependencies]
intmap = "=2.0.0"
libc = "0.2"
once_cell = "1"
futures = "0.3"
tokio = { version = "1", features = ["sync", "rt"] }
serde = { version = "1", features = ["derive"] }
serde_json = "1"
