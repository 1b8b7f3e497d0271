[package]
name = "polkapad_sale"
version = "0.1.0"
edition = "2021"
publish = false

[dependencies]
gstd = "1.10"
parity-scale-codec = { version = "3", default-features = false, features = ["derive"] }
scale-info = { version = "2", default-features = false, features = ["derive"] }
