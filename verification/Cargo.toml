[package]
name = "gcs_afv"
version = "0.1.0"
edition = "2021"
publish = false

[dependencies]
ipnet = "=2.12.2"
rand = "=0.8.8"
serde = { version = "=1.0.229", features = ["derive"] }
serde_bytes = "=0.11.19"
bincode = "=1.3.3"
tokio = { version = "=1.54.1", features = ["full"] }
flume = "=0.11.1"
default-net = "=0.14.1"
log = "=0.4.35"
pretty_env_logger = "=0.4.0"
clap = { version = "=4.6.7", features = ["derive"] }
futures = "=0.3.34"
url = "=2.5.8"
retina = "=0.4.21"
image = { version = "=0.24.9", default-features = false }
glam = "=0.24.2"
openh264 = "=0.3.2"
async-trait = "=0.1.92"
