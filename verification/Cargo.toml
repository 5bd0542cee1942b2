[package]
name = "portfwd"
version = "0.1.0"
edition = "2021"
publish = false

[dependencies]
clap = { version = "4", features = ["derive"] }
mio = { version = "0.8", features = ["net", "os-poll"] }
num_cpus = "1"
