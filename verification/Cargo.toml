[package]
name = "ankiconnect-rs"
version = "0.1.0"
edition = "2021"
publish = false

[dependencies]
html-escape = "0.2"
serde = { version = "1", features = ["derive"] }
thiserror = "2"
ureq = { version = "3", default-features = false, features = ["json"] }
