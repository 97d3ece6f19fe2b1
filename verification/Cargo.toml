[package]
name = "kp_sync"
version = "1.1.0"
edition = "2021"
publish = false

[dependencies]
chrono = "*"
log = "*"
reqwest = { version = "*", default-features = false, features = ["blocking", "rustls-tls"] }
select = "*"
serde = { version = "*", features = ["derive"] }
serde_json = "*"
