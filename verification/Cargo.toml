[package]
name = "starglow"
version = "0.1.0"
edition = "2021"
publish = false

[dependencies]
wgpu = { version = "0.19", default-features = false, features = ["wgsl"] }
bytemuck = { version = "1", features = ["derive"] }
rand = "0.8"
rand_distr = "0.4"
pollster = "*"
env_logger = { version = "*", default-features = false }
log = "*"
serde = { version = "1", features = ["derive"] }
toml = "*"
