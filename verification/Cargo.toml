[package]
name = "txkit"
version = "0.1.0"
edition = "2021"
publish = false

[dependencies]
ndarray = { version = "=0.16.1", features = ["rayon"] }
rayon = "=1.11.0"
heck = "=0.5.0"
base64 = "=0.22.1"
cgmath = "=0.18.0"
num-traits = "=0.2.19"
glutin = "=0.24.1"
glow = "*"
thiserror = "=1.0.69"
lazy_static = "=1.5.1"
libc = "=0.2.191"
log = "=0.4.34"
env_logger = "=0.11.11"
argh = "=0.1.19"
image = { version = "=0.25.10", default-features = false, features = ["png"] }
