[package]
name = "unarchive"
version = "0.1.0"
edition = "2021"
publish = false

[dependencies]
anyhow = "*"
flate2 = "*"
indicatif = "*"
tar = "*"
tokio = { version = "*", default-features = false, features = ["rt-multi-thread", "fs", "macros"] }
zip = { version = "*", default-features = false, features = ["deflate"] }
