[package]
name = "roomcast"
version = "0.1.0"
edition = "2021"
publish = false

[dependencies]
dashmap = "=5.5.3"
hashbrown = "=0.9.1"
tokio = { version = "=1.54.1", features = ["rt-multi-thread", "macros", "sync", "time"] }
warp = { version = "=0.3.7", default-features = false, features = ["websocket"] }
reqwest = { version = "=0.11.27", default-features = false }
serde = { version = "=1.0.229", features = ["derive"] }
serde_json = "=1.0.154"
futures = "=0.3.34"
bytes = "=1.12.1"
crossbeam = "0.8"
chrono = { version = "0.4", default-features = false, features = ["clock"] }
