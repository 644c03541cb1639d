[package]
name = "soul_audio_desktop"
version = "0.1.0"
edition = "2021"
publish = false

[dependencies]
base64 = "0.22"
serde = { version = "1", features = ["derive"] }
thiserror = "*"
tracing = "0.1"
tokio = { version = "1", features = ["rt-multi-thread", "sync", "time", "macros"] }
async-trait = "*"
crossbeam-channel = "*"
cpal = "*"
lofty = "0.18"
lru = "*"
dsf-meta = "*"
dff-meta = "*"
