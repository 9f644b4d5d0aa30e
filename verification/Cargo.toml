[package]
name = "nowcache"
version = "0.1.0"
edition = "2021"
publish = false

[dependencies]
anyhow = "*"
async-trait = "*"
axum = "*"
chrono = "=0.4.45"
log = "*"
metrics = "*"
metrics-exporter-prometheus = "*"
redis = "*"
reqwest = { version = "*", features = ["json", "query"] }
serde = { version = "*", features = ["derive"] }
serde_json = "=1.0.151"
tokio = { version = "*", features = ["full"] }
tower = "*"
tracing = "*"
tracing-subscriber = { version = "*", features = ["json"] }
