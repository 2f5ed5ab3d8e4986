[package]
name = "lattice_rpc"
version = "0.1.0"
edition = "2021"
publish = false

[dependencies]
wascap = "=0.16.2"
nkeys = "=0.4.5"
ring = "=0.17.14"
data-encoding = "=2.11.1"
uuid = { version = "=1.29.0", features = ["v4"] }
serde = { version = "=1.0.229", features = ["derive"] }
serde_bytes = "=0.11.19"
serde_json = "=1.0.154"
rmp-serde = "=1.3.1"
nats = "=0.26.0"
redis = "=0.32.7"
base64 = "=0.23.1"
log = "=0.4.34"
env_logger = "=0.11.11"
crossbeam = "=0.8.5"
