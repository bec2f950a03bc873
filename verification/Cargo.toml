[package]
name = "rav1e_native"
version = "0.1.0"
edition = "2021"
publish = false

[dependencies]
rav1e = { version = "*", default-features = false, features = ["threading"] }
rustler = "*"
