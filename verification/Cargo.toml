[package]
name = "robrix_sync"
version = "0.1.0"
edition = "2021"
publish = false

[dependencies]
anyhow = "1"
clap = { version = "4", features = ["derive"] }
crossbeam-channel = "0.5"
eyeball-im = "0.4"
futures-util = "0.3"
imbl = "2"
tokio = { version = "1", features = ["macros", "rt-multi-thread", "sync"] }
tracing-subscriber = "0.3"
unicode-segmentation = "1"
url = "2"
