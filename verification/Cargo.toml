[package]
name = "station_queues"
version = "0.1.0"
edition = "2021"
publish = false

[dependencies]
anyhow = "=1.0.104"
bytes = "=1.12.1"
log = "=0.4.35"
normfs = "=0.3.3"
normfs-types = "=0.3.3"
parking_lot = "=0.12.5"
prost = "=0.14.4"
tokio = { version = "=1.54.1", features = ["sync", "time", "rt", "rt-multi-thread", "macros"] }
uintn = "=0.3.3"

[dev-dependencies]
tempfile = "=3.27.0"
