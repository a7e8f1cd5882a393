[package]
name = "loop_lib"
version = "0.1.0"
edition = "2021"
publish = false

[dependencies]
clap = "4"
exitcode = "1"
regex = "1"
serde = { version = "1", features = ["derive"] }
serde_json = "1"
walkdir = "2"
