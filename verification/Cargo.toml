[package]
name = "timeclock"
version = "0.1.0"
edition = "2021"
publish = false

[dependencies]
anyhow = "1"
time = { version = "0.3", features = ["formatting", "local-offset", "macros", "parsing"] }
