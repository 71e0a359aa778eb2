[package]
name = "plugin_manager"
version = "0.1.0"
edition = "2021"
publish = false

[dependencies]
actix-files = "*"
actix-web = { version = "*", default-features = false, features = ["macros"] }
config = { version = "*", default-features = false }
env_logger = "*"
libloading = "*"
redis = { version = "*", features = ["tokio-comp", "connection-manager"] }
serde = { version = "*", features = ["derive"] }
serde_derive = "*"
serde_json = "*"
