[package]
name = "mpv_remote"
version = "0.1.0"
edition = "2021"
publish = false

[dependencies]
slab = "0.4"
futures-channel = "0.3"
serde = { version = "1", features = ["derive"] }
serde_json = "1"
tokio = { version = "1", features = ["process", "net", "io-util", "rt", "rt-multi-thread", "sync", "macros", "time"] }
libc = "0.2"
thiserror = "1"
tracing = "0.1"
anyhow = "1"
