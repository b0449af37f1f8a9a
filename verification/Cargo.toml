[package]
name = "clobber"
version = "0.1.0"
edition = "2021"
publish = false

[dependencies]
async-std = "=1.13.2"
chrono = "=0.4.45"
crossbeam-channel = "=0.5.17"
fern = "=0.7.1"
futures = "=0.3.34"
futures-timer = "=3.0.4"
futures-util-preview = { version = "=0.3.0-alpha.19", features = ["io"] }
log = "=0.4.34"
num_cpus = "=1.17.0"
romio = "=0.3.0-alpha.10"
serde = { version = "=1.0.229", features = ["derive"] }
spin_sleep = "=1.3.3"
tokio = { version = "=1.54.1", features = ["io-util", "macros", "net", "rt-multi-thread", "time"] }
