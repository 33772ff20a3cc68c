[package]
name = "trampoline_router"
version = "0.1.0"
edition = "2021"
publish = false

[dependencies]
bitcoin = "=0.32.102"
lightning = { version = "=0.3.0-rc3", features = ["_test_utils"] }
lightning-types = "=0.4.0-rc3"
