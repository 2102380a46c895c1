[package]
name = "todo_api"
version = "0.1.0"
edition = "2021"
publish = false

[dependencies]
ntex = "=3.12.3"
serde = { version = "=1.0.229", features = ["derive"] }
utoipa = "=6.0.0"
utoipa-swagger-ui = { version = "=10.0.1", features = ["vendored"] }

[dev-dependencies]
serde_json = "=1.0.151"
