[package]
name = "libtetris"
version = "0.1.0"
edition = "2021"
publish = false

[dependencies]
rand = "0.7"
rand_pcg = "0.2"
serde = { version = "1.0", features = ["derive"] }
