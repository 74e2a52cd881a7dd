[package]
name = "label_logger"
version = "0.1.0"
edition = "2021"
publish = false

[dependencies]
console = "=0.15.11"
dialoguer = { version = "=0.10.4", default-features = false, features = ["fuzzy-select", "password"] }
lazy_static = "=1.5.1"
term_size = "=0.3.2"
