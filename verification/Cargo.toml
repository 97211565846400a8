[package]
name = "synixe_bot"
version = "0.1.0"
edition = "2021"
publish = false

[dependencies]
rand = "=0.9.5"
regex = "=1.13.1"
time = { version = "=0.3.55", features = ["formatting", "macros"] }
uuid = "1"
