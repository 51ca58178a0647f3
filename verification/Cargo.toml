[package]
name = "ergo_node_client"
version = "0.1.0"
edition = "2021"
publish = false

[dependencies]
ergo-lib = "*"
reqwest = { version = "0.12", default-features = false, features = ["json"] }
serde = { version = "1", features = ["derive"] }
serde_json = "1"
thiserror = "1"
url = "2"
