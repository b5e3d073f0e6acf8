[package]
name = "gossip_core"
version = "0.1.0"
edition = "2021"
publish = false

[dependencies]
dashmap = "5"
egui = "0.22"
egui_extras = { version = "0.22", features = ["svg"] }
image = "0.24"
memoize = "*"
nostr-types = "*"
serde = { version = "1", features = ["derive"] }
serde_json = "1"
tokio = { version = "1", features = ["rt-multi-thread", "sync", "time"] }
tracing = "0.1"
