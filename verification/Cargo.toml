[package]
name = "shapir"
version = "0.1.0"
edition = "2021"
publish = false

[dependencies]
serde_json = "1"
md5 = "*"
chrono = "*"
email = "*"
hyper = "0.10"

[dev-dependencies]
form_urlencoded = "*"
