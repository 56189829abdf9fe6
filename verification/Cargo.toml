[package]
name = "argocd_client"
version = "0.1.0"
edition = "2021"
publish = false

[dependencies]
anyhow = "1"
http = "1"
hyper-rustls = { version = "0.27", default-features = false, features = ["native-tokio", "http2", "ring", "tls12"] }
hyper-util = { version = "0.1", features = ["client-legacy", "tokio", "http2"] }
prost = "0.13"
rustls = { version = "0.23", default-features = false, features = ["ring", "std", "tls12"] }
tonic = { version = "0.12", default-features = false, features = ["codegen", "prost"] }
tonic-web = "0.12"
tower = "0.5"
