[package]
name = "ruactor"
version = "0.1.0"
edition = "2021"
publish = false

[dependencies]
tokio = { version = "1", features = ["rt", "rt-multi-thread", "sync", "time", "macros"] }
crossbeam = "0.8"
rayon = "1"
num_cpus = "1"
futures = "0.3"
thiserror = "1"
anyhow = "1"
async-trait = "0.1"
