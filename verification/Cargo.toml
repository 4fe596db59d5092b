[package]
name = "commit_check"
version = "0.1.0"
edition = "2021"
publish = false

[dependencies]
chrono = "0.4"
scraper = "*"
serde_json = "*"
tokio = { version = "*", features = ["macros", "rt-multi-thread"] }
lambda_runtime = "*"
reqwest = { version = "*", default-features = false, features = ["rustls-tls"] }
rusoto_core = { version = "0.48", default-features = false, features = ["rustls"] }
rusoto_sns = { version = "0.48", default-features = false, features = ["rustls"] }
