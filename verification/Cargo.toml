[package]
name = "rject"
version = "0.1.0"
edition = "2021"
publish = false

[dependencies]
cursive = { version = "0.21", default-features = false, features = ["crossterm-backend"] }
crossterm = "0.28"
