[package]
name = "nft_storage"
version = "0.1.0"
edition = "2021"
publish = false

[dependencies]
url = "*"
reqwest = { version = "*", default-features = false, features = ["stream"] }
tokio = { version = "*", default-features = false, features = ["fs"] }
tokio-util = { version = "*", default-features = false, features = ["codec"] }
serde = { version = "*", features = ["derive"] }
serde_json = "*"
anyhow = "*"

[dev-dependencies]
tokio = { version = "*", default-features = false, features = ["fs", "rt"] }
