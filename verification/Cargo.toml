[package]
name = "backend"
version = "0.1.0"
edition = "2021"
publish = false

[dependencies]
num_cpus = "1"
neon = "*"
log = "0.4"
env_logger = "*"
lazy_static = "1"
