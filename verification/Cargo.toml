[package]
name = "polydrive_client"
version = "0.1.0"
edition = "2021"
publish = false

[dependencies]
anyhow = "=1.0.104"
async-trait = "=0.1.92"
clap = { version = "=3.2.25", features = ["derive"] }
env_logger = "=0.9.3"
glob = "=0.3.4"
interprocess = "=1.2.1"
log = "=0.4.34"
notify = "=4.0.18"
prettytable-rs = { version = "=0.10.0", default-features = false }
prost = "=0.11.9"
reqwest = { version = "=0.11.27", default-features = false }
serde = { version = "=1.0.229", features = ["derive"] }
serde_yaml = "=0.8.26"
signal-hook = "=0.3.18"
tokio = { version = "=1.54.1", features = ["macros", "rt-multi-thread", "sync"] }
tonic = "=0.8.3"
