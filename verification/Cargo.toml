[package]
name = "grpc_middleware"
version = "0.1.0"
edition = "2021"
publish = false

[dependencies]
bytes = "*"
futures-core = "*"
http = "*"
http-body = "*"
pin-project-lite = "*"
tokio = { version = "*", features = ["time"] }
tower = "*"
tracing = "*"
