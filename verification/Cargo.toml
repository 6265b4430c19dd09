[package]
name = "afirmflasher"
version = "0.1.0"
edition = "2021"
publish = false

[dependencies]
libc = "*"
reqwest = { version = "*", default-features = false, features = ["blocking", "json"] }
serde_json = "*"
sha2 = "*"
