[package]
name = "sonai"
version = "0.1.0"
edition = "2021"
publish = false

[dependencies]
aho-corasick = "=1.1.5"
pulldown-cmark = "=0.13.4"
emojis = "=0.9.0"
unicode-segmentation = "=1.13.3"
serde = { version = "*", features = ["derive"] }
bincode = { version = "=2.0.1", features = ["serde"] }
anyhow = "*"
futures = "*"
reqwest = { version = "*", default-features = false, features = ["json"] }
tokio = { version = "*", features = ["rt", "macros", "time", "fs"] }
linfa = "=0.8.1"
linfa-clustering = { version = "=0.8.1", features = ["serde"] }
linfa-nn = "=0.8.1"
ndarray = { version = "=0.16.1", features = ["serde"] }
