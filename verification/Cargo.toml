[package]
name = "ytbv"
version = "0.1.0"
edition = "2021"
publish = false

[dependencies]
crossterm = "0.27"
imagesize = "*"
ratatui = "0.26"
reqwest = { version = "0.12", default-features = false, features = ["blocking", "rustls-tls"] }
rustypipe = { version = "*", default-features = false }
time = { version = "0.3", features = ["formatting"] }
tokio = { version = "1", features = ["rt-multi-thread"] }
viuer = "0.7"
