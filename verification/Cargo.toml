[package]
name = "unity_package_manager"
version = "0.1.0"
edition = "2021"
publish = false

[dependencies]
serde_json = "1"
serde = { version = "1", features = ["derive"] }
git2 = "*"
dirs = "*"
uuid = { version = "1", features = ["v4"] }
