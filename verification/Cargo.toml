[package]
name = "msr_server"
version = "0.1.0"
edition = "2021"
publish = false

[dependencies]
raw-cpuid = "=11.6.0"
serde = { version = "=1.0.229", features = ["derive"] }
serde_json = "=1.0.154"
toml = "=0.8.23"
sysinfo = "=0.30.13"
lazy_static = "=1.5.1"
actix-web = "=4.18.1"
actix-cors = "=0.7.2"
