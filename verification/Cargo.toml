[package]
name = "libwebp_image"
version = "0.3.0"
edition = "2021"
publish = false

[dependencies]
image = { version = "0.24", default-features = false }
libwebp = "0.1"

[dev-dependencies]
rand = "0.8"
