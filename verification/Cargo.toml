[package]
name = "clipdown"
version = "0.1.0"
edition = "2021"
publish = false

[dependencies]
serde_json = "*"
toml = "*"
image = { version = "*", default-features = false, features = ["png"] }
arboard = "*"
rdev = "*"
winrt-notification = "*"
