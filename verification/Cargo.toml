[package]
name = "mr_cool_nes"
version = "0.1.0"
edition = "2021"
publish = false

[dependencies]
clap = "=4.6.7"
config = "=0.15.27"
log = "=0.4.34"
pretty_env_logger = "=0.5.0"
