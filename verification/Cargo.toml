[package]
name = "techdebt_tracker"
version = "0.1.0"
edition = "2021"
publish = false

[dependencies]
syn = { version = "2", features = ["full"] }
clap = "4"
walkdir = "2"
