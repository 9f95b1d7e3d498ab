[package]
name = "aircrate"
version = "0.1.0"
edition = "2021"
publish = false

[dependencies]
md5 = "0.7"
uuid = { version = "1", features = ["v4"] }
serde = { version = "1", features = ["derive"] }
serde_json = "1"
toml = "0.8"
tokio = { version = "1", features = ["rt-multi-thread", "macros", "sync", "time"] }
reqwest = { version = "0.12", default-features = false, features = ["json", "stream", "rustls-tls"] }
futures-util = "0.3"
bytes = "1"
chrono = "0.4"
tokio-util = "0.7"
symphonia = "0.5"
rodio = "0.21"
sqlx = { version = "0.8", default-features = false, features = ["sqlite", "runtime-tokio"] }
