[package]
name = "axvisor"
version = "0.1.0"
edition = "2021"
publish = false

[dependencies]
aarch64-cpu-ext = "=0.1.4"
arm-gic-driver = "=0.18.1"
rdif-intc = "=0.16.1"
rdif-block = "=0.13.2"
rdrive = "=0.18.11"
axklib = "=0.9.1"
log = "=0.4.35"
spin = "=0.12.3"
anyhow = "=1.0.104"
chrono = "=0.4.45"
clap = { version = "=4.6.7", features = ["derive"] }
tokio = { version = "=1.54.1", features = ["macros", "rt-multi-thread"] }
