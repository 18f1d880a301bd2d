[package]
name = "bussard"
version = "0.1.0"
edition = "2021"
publish = false

[dependencies]
http = "0.2"
hyper = "0.13"
tokio = { version = "0.2", features = ["full"] }
warp = "0.2"
pyo3 = "0.12"
futures = "0.3"
