[package]
name = "ollama_bridge"
version = "0.1.0"
edition = "2021"
publish = false

[dependencies]
tokio = { version = "=1.53.2", features = ["rt-multi-thread", "macros", "process", "io-util", "sync", "signal", "time"] }
futures = "=0.3.34"
ollama-rs = { version = "=0.2.6", default-features = false, features = ["stream"] }
libp2p = { version = "=0.54.1", default-features = false, features = ["tokio", "quic"] }
libp2p-stream = "=0.2.0-alpha"
