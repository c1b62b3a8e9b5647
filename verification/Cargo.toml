[package]
name = "tradedoc"
version = "0.1.0"
edition = "2021"
publish = false

[dependencies]
lopdf = { version = "=0.45.0", features = ["embed_image"] }
unicode-script = "=0.5.8"
image = "=0.25.10"
resvg = "=0.48.1"
chrono = "=0.4.45"
rust_decimal = "=1.43.0"
