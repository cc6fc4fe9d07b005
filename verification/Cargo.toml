[package]
name = "near_syn"
version = "0.1.0"
edition = "2021"
publish = false

[dependencies]
syn = { version = "=1.0.109", features = ["full"] }
proc-macro2 = "=1.0.107"
quote = "1"
clap = { version = "=4.6.7", features = ["derive"] }
chrono = "=0.4.45"
