[package]
name = "switch_router_middleware"
version = "0.1.0"
edition = "2021"
publish = false

[dependencies]
log = "0.4"
reactive-state = "0.3"
serde = { version = "1", features = ["derive"] }
