[package]
name = "sample_controller"
version = "0.1.0"
edition = "2021"
publish = false

[dependencies]
k8s-openapi = { version = "*", features = ["latest"] }
kube = { version = "*", features = ["runtime", "derive"] }
schemars = "*"
serde = { version = "*", features = ["derive"] }
serde_json = "*"
serde_yaml = "*"
thiserror = "*"
tokio-stream = "*"
tracing = "*"
