[package]
name = "tcp_echo"
version = "0.1.0"
edition = "2021"
publish = false

[dependencies]
thiserror = "1"
serde = { version = "1", features = ["derive"] }
actix-web = { version = "4", default-features = false, features = ["macros"] }
