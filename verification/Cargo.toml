[package]
name = "lifetracker"
version = "0.1.0"
edition = "2021"
publish = false

[dependencies]
chrono = "0.4"
uuid = { version = "1", features = ["v4", "v7"] }
serde = { version = "1", features = ["derive"] }
sea-orm = { version = "1", default-features = false, features = ["macros", "with-chrono", "with-uuid"] }
config = { version = "0.14", default-features = false, features = ["yaml"] }
actix-web = "4"
actix-session = "0.10"
deadpool-redis = "0.18"
