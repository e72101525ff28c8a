[package]
name = "haaslib"
version = "0.1.0"
edition = "2021"
publish = false

[dependencies]
serde = { version = "*", features = ["derive"] }
serde_json = "*"
serde_repr = "*"
rand = "*"
urlencoding = "*"
reqwest = { version = "*", default-features = false, features = ["blocking", "json"] }
