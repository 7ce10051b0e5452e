[package]
name = "move_to_ts"
version = "0.1.0"
edition = "2021"
publish = false

[dependencies]
itertools = "0.10"
clap = { version = "3", features = ["derive"] }
move-compiler = "0.0.0"
move-core-types = "0.0.3"
