[package]
name = "leeca_core"
version = "0.1.0"
edition = "2021"
publish = false

[dependencies]
clap = "=4.6.7"
config = "=0.15.27"

[dev-dependencies]
tempfile = "=3.27.0"
temp-env = "=0.3.6"
