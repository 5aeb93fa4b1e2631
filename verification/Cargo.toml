[package]
name = "auto_explain"
version = "0.1.0"
edition = "2021"
publish = false

[dependencies]
pgrx = { version = "0.12", default-features = false, features = ["pg16"] }
