[package]
name = "autocluster"
version = "0.1.0"
edition = "2021"
publish = false

[dependencies]
anyhow = "*"
futures = "*"
k8s-openapi = { version = "*", features = ["latest"] }
kube = { version = "*", features = ["runtime"] }
serde_json = "*"
tokio = { version = "*", features = ["macros", "rt-multi-thread"] }
