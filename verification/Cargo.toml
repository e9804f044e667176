[package]
name = "nominal_bridge"
version = "0.1.0"
edition = "2021"
publish = false

[dependencies]
once_cell = "=1.21.4"
parking_lot = "=0.12.5"
tokio = { version = "=1.53.2", features = ["rt-multi-thread"] }
