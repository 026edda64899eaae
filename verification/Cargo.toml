[package]
name = "teklo_foundry"
version = "0.1.0"
edition = "2021"
publish = false

[dependencies]
dioxus = { version = "0.5", features = ["web", "router"] }
dioxus-logger = "0.5"
manganis = "0.2"
tracing = "0.1"
