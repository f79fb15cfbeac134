[package]
name = "ureq_multipart"
version = "0.1.0"
edition = "2021"
publish = false

[dependencies]
rand = "0.8"
mime_guess = "2"
mime = "0.3"
ureq = { version = "2", default-features = false }
