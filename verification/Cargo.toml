[package]
name = "droppher"
version = "0.1.0"
edition = "2021"
publish = false

[dependencies]
json = "*"
notify-rust = "*"
reqwest = { version = "*", default-features = false, features = ["rustls-tls"] }
tinyfiledialogs = "*"
tokio = { version = "*", features = ["macros", "rt-multi-thread"] }
