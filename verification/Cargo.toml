[package]
name = "kube-mock"
version = "0.1.0"
edition = "2021"
publish = false

[dependencies]
http = "=1.5.0"
k8s-openapi = { version = "=0.27.1", features = ["latest"] }
k8s-openapi-ext = "=0.27.5"
kube = { version = "=3.1.0", default-features = false, features = ["client"] }
serde = { version = "=1.0.229", features = ["derive"] }
serde_json = "=1.0.154"
thiserror = "=2.0.21"
tokio = { version = "=1.54.1", features = ["rt", "macros"] }
tower-test = "=0.4.0"
tracing = "=0.1.44"
uuid = { version = "=1.29.1", features = ["v4"] }
