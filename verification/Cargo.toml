[package]
name = "nftide"
version = "0.1.0"
edition = "2021"
publish = false

[dependencies]
serde_json = "*"
serde_urlencoded = "*"
reqwest = { version = "*", default-features = false, features = ["json", "rustls-tls"] }
tokio = { version = "*", features = ["macros", "rt-multi-thread", "time"] }
clap = { version = "*", features = ["derive"] }
dotenv = "*"
