[package]
name = "chat_bridge"
version = "0.1.0"
edition = "2021"
publish = false

[dependencies]
axum = "=0.8.9"
dotenvy = "=0.15.7"
http-body-util = "=0.1.5"
poise = "=0.6.2"
redis = { version = "=1.8.0", features = ["tokio-comp"] }
slack-morphism = { version = "=2.31.1", features = ["hyper", "axum"] }
tokio = { version = "=1.54.1", features = ["macros", "rt-multi-thread", "net", "sync"] }
