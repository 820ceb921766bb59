[package]
name = "cue_clicker"
version = "0.1.0"
edition = "2021"
publish = false

[dependencies]
image = { version = "=0.25.10", default-features = false, features = ["png", "jpeg"] }
xcap = "=0.9.8"
sysinfo = { version = "=0.39.6", default-features = false, features = ["system"] }
enigo = "=0.6.1"
ctrlc = "=3.5.2"
toml = { version = "=1.1.6", default-features = false, features = ["parse", "serde"] }
serde = { version = "=1.0.229", features = ["derive"] }
clap = { version = "=4.6.7", default-features = false, features = ["std", "help", "usage", "error-context"] }
anyhow = "=1.0.104"
chrono = { version = "=0.4.45", default-features = false, features = ["clock"] }
log = "=0.4.34"
env_logger = { version = "=0.11.11", default-features = false }
threadpool = "=1.8.1"
