[package]
name = "spawn_server"
version = "0.1.0"
edition = "2021"
publish = false

[dependencies]
actix-web = { version = "*", default-features = false, features = ["macros"] }
reqwest = { version = "*", default-features = false, features = ["blocking", "json"] }
serde = { version = "*", features = ["derive"] }
shells = "*"
tokio = { version = "*", features = ["rt"] }
tracing = "*"
tracing-actix-web = "*"
tracing-subscriber = { version = "*", features = ["env-filter", "fmt"] }
