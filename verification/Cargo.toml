[package]
name = "cloud_save"
version = "0.1.0"
edition = "2021"
publish = false

[dependencies]
bytes = "*"
object_store = "*"
tokio = { version = "*", features = ["rt"] }
url = "*"
