[package]
name = "rose_offline_client"
version = "0.1.0"
edition = "2021"
publish = false

[dependencies]
anyhow = "=1.0.104"
thiserror = "=1.0.69"
log = "=0.4.35"
rand = "0.8"

[dev-dependencies]
num-traits = "=0.2.19"
