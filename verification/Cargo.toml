[package]
name = "sparktest"
version = "0.1.0"
edition = "2021"
publish = false

[dependencies]
uuid = { version = "=1.27.0", features = ["v4"] }
chrono = "=0.4.45"
kube = "=3.1.0"
k8s-openapi = { version = "=0.27.1", features = ["latest"] }
sqlx = { version = "=0.9.0", features = ["runtime-tokio", "postgres", "uuid", "chrono"] }
tokio = { version = "=1.53.2", features = ["rt-multi-thread", "macros", "time"] }
serde = { version = "=1.0.229", features = ["derive"] }
serde_json = "=1.0.151"
anyhow = "=1.0.104"
