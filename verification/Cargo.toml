[package]
name = "inscription_indexing"
version = "0.1.0"
edition = "2021"
publish = false

[dependencies]
chainhook-types = "*"
crossbeam-channel = "=0.5.17"
dashmap = "=5.5.3"
fxhash = "=0.2.1"
hiro-system-kit = "=0.3.4"
rusqlite = { version = "=0.27.0", features = ["bundled"] }
