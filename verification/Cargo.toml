[package]
name = "fiobench"
version = "0.1.0"
edition = "2021"
publish = false

[dependencies]
serde_json = "1"
getopts = "0.2"
chrono = "0.4"
ansi_term = "0.12"
