[package]
name = "rtp-bff"
version = "0.1.0"
edition = "2021"
publish = false

[dependencies]
axum = "0.8"
axum-extra = { version = "*", features = ["cookie"] }
axum-governor = "*"
ipnet = "2"
openidconnect = "4"
redis = { version = "*", features = ["tokio-comp", "connection-manager"] }
serde_json = "1"
sha2 = "0.10"
time = "0.3"
tokio = { version = "1", features = ["macros", "rt-multi-thread", "net", "sync", "time"] }

[dev-dependencies]
p256 = "0.13"
tower = { version = "0.5", features = ["util"] }
