[package]
name = "clipboard_pipeline"
version = "0.1.0"
edition = "2021"
publish = false

[dependencies]
image = { version = "*", default-features = false, features = ["png"] }
base64 = "*"
arboard = "*"
clipboard-master = "*"
active-win-pos-rs = "*"
