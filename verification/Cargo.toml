[package]
name = "memshack"
version = "0.1.0"
edition = "2021"
publish = false

[dependencies]
serde_json = "*"
serde = { version = "*", features = ["derive"] }
k8s-openapi = { version = "*", features = ["latest"] }
kube = { version = "*", default-features = false, features = ["derive"] }
schemars = "*"
roperator = "*"
log = "*"
env_logger = "*"
tokio = { version = "*", features = ["macros", "rt-multi-thread"] }
