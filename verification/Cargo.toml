[package]
name = "unnamed"
version = "0.1.0"
edition = "2021"
publish = false

[dependencies]
accessibility-sys = "*"
argh = "0.1"
cocoa = "*"
core-foundation-sys = "0.8"
core-graphics = "*"
dashmap = "6"
rdev = "0.5"
snafu = "0.8"
