[package]
name = "submit_pack"
version = "0.3.1"
edition = "2021"
publish = false

[dependencies]
anyhow = "1"
async_zip = { version = "*", features = ["tokio", "tokio-fs", "deflate"] }
colored = "*"
indicatif = "*"
open = "*"
regex = "1"
reqwest = { version = "0.12", features = ["multipart"] }
serde = { version = "1", features = ["derive"] }
serde-java-properties = "*"
tokio = { version = "1", features = ["full"] }
walkdir = "2"
yaup = "*"
