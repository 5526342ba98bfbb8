[package]
name = "control-plane"
version = "0.1.0"
edition = "2021"
publish = false

[dependencies]
deadpool-postgres = "0.14"
k8s-openapi = { version = "*", default-features = false, features = ["latest"] }
kube = { version = "*", default-features = false, features = ["client"] }
ring = "0.17"
rustls = { version = "0.23", default-features = false, features = ["ring", "std"] }
rustls-webpki = { version = "0.103", default-features = false, features = ["ring", "std"] }
serde = { version = "1", features = ["derive"] }
serde_json = "1"
tokio = { version = "1", features = ["full"] }
tokio-postgres = { version = "0.7", features = ["with-serde_json-1"] }
tonic = "*"
tonic-web = "*"
tower = "*"
tower-http = { version = "*", features = ["cors"] }
x509-parser = { version = "*", features = ["verify"] }
zeroize = "1"

[dev-dependencies]
rcgen = "0.14"
