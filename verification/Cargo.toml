[package]
name = "hoststats"
version = "0.1.0"
edition = "2021"
publish = false

[dependencies]
axum = "*"
axum-server = "*"
serde = { version = "*", features = ["derive"] }
sysinfo = "*"
tokio = { version = "*", features = ["macros", "rt-multi-thread"] }

[dev-dependencies]
serde_json = "*"
