[package]
name = "nat_puncher"
version = "0.1.0"
edition = "2021"
publish = false

[dependencies]
anyhow = "1"
futures = "0.3"
godot = "*"
hyper-rustls = { version = "0.27", default-features = false, features = ["native-tokio", "http1", "http2", "ring", "tls12"] }
hyper-util = { version = "0.1", features = ["client-legacy", "tokio", "http1", "http2"] }
prost = "0.13"
rand = "0.9"
tokio = { version = "1", features = ["full"] }
tokio-stream = { version = "0.1", features = ["net"] }
tokio-util = "0.7"
tonic = "0.13"
tonic-web = "0.13"
tower = "0.5"
uuid = { version = "1", features = ["v4"] }
