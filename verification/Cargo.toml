[package]
name = "ir_trace"
version = "0.1.0"
edition = "2021"
publish = false

[dependencies]
sha2 = "=0.10.9"
serde = { version = "=1.0.229", features = ["derive"] }
serde_json = { version = "=1.0.154", features = ["unbounded_depth"] }
bincode = "=1.3.3"
clap = { version = "=4.6.7", features = ["derive"] }
