[package]
name = "keepass_viewer"
version = "0.1.0"
edition = "2021"
publish = false

[dependencies]
keepass = { version = "=0.15.0", features = ["save_kdbx4"] }
