[package]
name = "flaky_finder"
version = "0.1.0"
edition = "2021"
publish = false

[dependencies]
crossbeam-channel = "0.5"
indicatif = "0.15"
threadpool = "1.8"
