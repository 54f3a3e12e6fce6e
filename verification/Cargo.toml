[package]
name = "typix"
version = "0.1.0"
edition = "2021"
publish = false

[dependencies]
anyhow = "1"
chrono = "0.4"
directories = "*"
env_logger = "*"
evdev-rs = "*"
glob = "0.3"
log = "0.4"
nix = "*"
reqwest = { version = "*", features = ["json"] }
serde = { version = "1", features = ["derive"] }
structopt = "0.3"
tokio = { version = "1", features = ["macros", "rt-multi-thread"] }
toml = "*"
