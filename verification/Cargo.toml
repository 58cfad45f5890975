[package]
name = "temp_mongo"
version = "0.1.0"
edition = "2021"
publish = false

[dependencies]
bollard = "0.16"
futures-util = "0.3"
mongodb = "2.8"
tokio = { version = "1", features = ["rt", "time"] }
