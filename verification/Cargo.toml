[package]
name = "spectral_residual"
version = "0.1.0"
edition = "2021"
publish = false

[dependencies]
chrono = { version = "0.4", default-features = false, features = ["std"] }
clap = { version = "4", features = ["derive"] }
csv = "1"
rustfft = "6"
serde = { version = "1", features = ["derive"] }
