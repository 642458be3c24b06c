[package]
name = "wow"
version = "0.1.0"
edition = "2021"
publish = false

[dependencies]
bincode = "2"
reqwest = { version = "0.12", default-features = false, features = ["rustls-tls"] }
termion = "*"
tokio = { version = "1", features = ["macros", "rt-multi-thread", "signal", "time"] }
