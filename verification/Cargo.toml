[package]
name = "bitjo"
version = "0.1.1"
edition = "2021"
publish = false

[dependencies]
chrono = "=0.4.45"
clap = { version = "=3.2.25", features = ["derive"] }
dirs = "=4.0.0"
serde = { version = "=1.0.229", features = ["derive"] }
serde_yaml = "0.9"
structopt = "=0.3.26"
termion = "=1.5.6"
