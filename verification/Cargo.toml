[package]
name = "voodoo-doll"
version = "0.1.0"
edition = "2021"
publish = false

[dependencies]
regex = "1"
rand = "0.8"
serde = { version = "1", features = ["derive"] }
serde_json = "1"
strum = "0.21"
thiserror = "1"
lazy_static = "1"
tokio = { version = "1", features = ["full"] }
tokio-stream = "0.1"
tokio-tungstenite = "0.21"
futures = "0.3"
hyper = "0.14"
warp = "0.3"
kube = { version = "0.93", default-features = false, features = ["client"] }
k8s-openapi = { version = "0.22", default-features = false, features = ["v1_30"] }
