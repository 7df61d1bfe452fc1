[package]
name = "flowy_document"
version = "0.1.0"
edition = "2021"
publish = false

[dependencies]
dashmap = "4"
md5 = "0.7"
bytes = "1"
async-trait = "0.1"
tokio = { version = "1", features = ["rt", "sync"] }
log = "0.4"
tracing = "0.1"

[dev-dependencies]
protobuf = "2"
