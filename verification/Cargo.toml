[package]
name = "toon_mcp"
version = "0.1.0"
edition = "2021"
publish = false

[dependencies]
anyhow = "=1.0.104"
axum = "=0.8.9"
clap = { version = "=4.6.7", features = ["derive", "env"] }
rmcp = { version = "=3.5.1", features = ["server", "macros", "transport-io"] }
schemars = "=1.2.2"
serde = { version = "=1.0.229", features = ["derive"] }
serde_json = "=1.0.151"
thiserror = "=2.0.21"
tokio = { version = "=1.53.2", features = ["macros", "rt-multi-thread", "net"] }
toon-format = { version = "=0.6.1", default-features = false }
tower-http = { version = "=0.7.1", features = ["cors"] }
utoipa = { version = "=6.0.0", features = ["axum_extras"] }
utoipa-swagger-ui = { version = "=10.0.1", features = ["axum"] }
