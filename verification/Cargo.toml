[package]
name = "veltrix"
version = "0.1.0"
edition = "2021"
publish = false

[dependencies]
heck = "0.5"
quick-xml = "0.37"
serde = { version = "1", features = ["derive"] }
serde_json = "1"
libc = "0.2"
thiserror = "2"
tokio = { version = "1", features = ["net", "io-util", "process", "rt"] }
reqwest = { version = "0.12", default-features = false, features = ["json"] }
clap = { version = "4", features = ["derive"] }
