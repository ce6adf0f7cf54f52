[package]
name = "tonic"
version = "0.1.0"
edition = "2021"

[dependencies]
scheduled-thread-pool = "*"
num_cpus = "*"
midir = "*"
