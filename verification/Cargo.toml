[package]
name = "ferrosonic"
version = "0.1.0"
edition = "2021"
publish = false

[dependencies]
async-trait = "0.1"
futures = { version = "0.3", default-features = false, features = ["std"] }
image = { version = "0.25", default-features = false, features = ["jpeg", "png", "webp"] }
libc = "0.2"
ratatui = { version = "*", default-features = false }
ratatui-image = { version = "*", default-features = false }
reqwest = { version = "0.12", default-features = false, features = ["stream"] }
serde = { version = "1", features = ["derive"] }
serde_json = "1"
tempfile = "3"
tokio = { version = "1", features = ["fs", "io-util", "macros", "net", "process", "rt-multi-thread", "sync", "time"] }
toml = "*"
tracing = "0.1"
url = "2"
zbus = { version = "5", default-features = false, features = ["tokio"] }
zeroize = "1"
