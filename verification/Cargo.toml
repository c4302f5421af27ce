[package]
name = "etherdream"
version = "0.1.0"
edition = "2021"
publish = false

[dependencies]
tokio = { version = "=1.54.1", features = ["full"] }
tokio-util = { version = "=0.7.20", features = ["codec", "net"] }
futures = "=0.3.34"
nalgebra = "=0.35.0"
clap = { version = "4", features = ["cargo"] }
