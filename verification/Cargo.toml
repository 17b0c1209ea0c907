[package]
name = "mine_service"
version = "0.1.0"
edition = "2021"
publish = false

[dependencies]
drillx = "=2.2.0"
hex = "=0.4.3"
bs58 = "=0.5.1"
rand = "=0.10.3"
num_cpus = "=1.17.0"
crossbeam = "=0.8.5"
tokio = { version = "=1.53.2", features = ["rt-multi-thread", "macros", "sync", "time"] }
warp = { version = "=0.4.3", features = ["server"] }
serde = { version = "=1.0.229", features = ["derive"] }
