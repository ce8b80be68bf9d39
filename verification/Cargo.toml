[package]
name = "taokt"
version = "0.1.0"
edition = "2021"
publish = false

[dependencies]
tao = "*"
image = { version = "*", default-features = false, features = ["png", "jpeg", "ico", "bmp"] }
thiserror = "*"
uniffi = "*"
