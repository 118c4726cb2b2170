[package]
name = "pubsub_latency"
version = "0.1.0"
edition = "2021"
publish = false

[dependencies]
hdrhistogram = { version = "7", default-features = false }
parse_duration = "2"
nats = "*"
structopt = "0.3"
env_logger = "*"

[dev-dependencies]
libm = "0.2"
