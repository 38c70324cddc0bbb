[package]
name = "springnode"
version = "0.5.0"
edition = "2021"
publish = false

[dependencies]
sqlite = "=0.37.4"
prettytable-rs = "=0.10.0"
rustc-serialize = "=0.3.25"
