[package]
name = "proof_of_duel"
version = "0.1.0"
edition = "2021"
publish = false

[dependencies]
arboard = { version = "*", default-features = false }
axum = "*"
bevy = { version = "=0.16.1", default-features = false, features = ["bevy_state"] }
bevy_quinnet = "=0.17.0"
dotenvy = "=0.15.7"
rand = "=0.9.5"
serde = { version = "=1.0.229", features = ["derive"] }
tokio = { version = "*", features = ["rt-multi-thread", "net"] }
tokio-util = "=0.7.19"
tower-http = { version = "*", features = ["cors"] }
ureq = { version = "=2.12.1", features = ["json"] }
uuid = { version = "=1.29.0", features = ["v4", "serde"] }
webbrowser = "*"
