[package]
name = "snout"
version = "0.1.0"
edition = "2021"
publish = false

[dependencies]
rosc = "=0.11.4"
image = { version = "=0.25.10", default-features = false, features = ["jpeg"] }
imageproc = { version = "=0.25.1", default-features = false }
serde = { version = "=1.0.229", features = ["derive"] }
thiserror = "=2.0.21"
tracing = "=0.1.44"
ureq = { version = "=3.5.1", default-features = false }
clap = { version = "=4.6.7", features = ["derive"] }
indicatif = "=0.17.11"
v4l = "0.14"
