[package]
name = "ragc"
version = "0.1.0"
edition = "2021"
publish = false

[dependencies]
heapless = "0.7"
clap = "2"
crossbeam-channel = "0.5"
ctrlc = "3"
env_logger = "0.9"
log = "0.4"
