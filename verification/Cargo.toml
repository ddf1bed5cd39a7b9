[package]
name = "service_kit"
version = "0.1.0"
edition = "2021"
publish = false

[dependencies]
actix-web = { version = "=4.18.1", default-features = false }
async-trait = "=0.1.92"
base64 = "=0.21.7"
dotenvy = "=0.15.7"
futures-util = "=0.3.34"
opentelemetry = { version = "=0.20.0", features = ["trace"] }
paho-mqtt = { version = "=0.12.5", default-features = false }
tracing = "=0.1.44"
