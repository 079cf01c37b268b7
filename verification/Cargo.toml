[package]
name = "asciify"
version = "0.1.0"
edition = "2021"
publish = false

[dependencies]
image = "0.24"
clap = { version = "4", features = ["derive"] }
reqwest = { version = "0.11", default-features = false, features = ["blocking", "rustls-tls"] }
