[package]
name = "matchbox"
version = "0.1.0"
edition = "2021"
publish = false

[dependencies]
anyhow = "1"
axum = "0.6"
clap = { version = "4", features = ["derive"] }
hyper = { version = "0.14", features = ["full"] }
hyperlocal = "0.8"
libc = "0.2"
netns-rs = "*"
prost = "0.11"
serde = { version = "1", features = ["derive"] }
serde_json = "1"
tokio = { version = "1", features = ["full"] }
tonic = "0.9"
userfaultfd = "*"
uuid = { version = "1", features = ["v4"] }
