[package]
name = "regex_workbench"
version = "0.1.0"
edition = "2021"
publish = false

[dependencies]
regex = "1"
axum = "*"
axum-extra = { version = "*", features = ["form"] }
tokio = { version = "1", features = ["rt-multi-thread", "net", "macros"] }
tower-http = { version = "*", features = ["fs", "limit"] }
serde = { version = "1", features = ["derive"] }
serde_json = "1"
chrono = "0.4"
html-escape = "*"
rustc_version_runtime = "*"
