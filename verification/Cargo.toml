[package]
name = "kubernetes_applier"
version = "0.1.0"
edition = "2021"
publish = false

[dependencies]
base64 = "*"
serde_json = "*"
serde_yaml = "*"
kube = "*"
k8s-openapi = { version = "*", features = ["latest"] }
tokio = { version = "*", features = ["rt", "macros"] }
