[package]
name = "api-version"
version = "0.1.0"
edition = "2021"
publish = false

[dependencies]
axum = { version = "=0.8.9", default-features = false }
axum-extra = { version = "=0.10.3", default-features = false, features = ["typed-header"] }
futures = "=0.3.34"
tower = "=0.5.3"
tracing = "=0.1.44"

[dev-dependencies]
regex = "1"
