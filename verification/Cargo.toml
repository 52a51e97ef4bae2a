[package]
name = "cellagent"
version = "0.1.0"
edition = "2021"
publish = false

[dependencies]
embedded-hal = "1"
zerocopy = { version = "0.8", features = ["derive"] }
