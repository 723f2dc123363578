[package]
name = "gzcodec"
version = "0.1.0"
edition = "2021"
publish = false

[dependencies]
flate2 = "1"
actix-web = "4"
actix-multipart = "*"
futures-util = "0.3"
image = "*"
serde = { version = "1", features = ["derive"] }
