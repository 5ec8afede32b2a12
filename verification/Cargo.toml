[package]
name = "mini_mtn_momo"
version = "0.1.0"
edition = "2021"
publish = false

[dependencies]
anyhow = "*"
reqwest = { version = "*", default-features = false, features = ["blocking", "json"] }
serde = { version = "*", features = ["derive"] }
serde_json = "*"
structopt = "*"
uuid = { version = "*", features = ["v4"] }
