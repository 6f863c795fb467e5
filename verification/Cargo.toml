[package]
name = "nudge"
version = "0.2.1"
edition = "2021"
publish = false

[dependencies]
cfg-if = "1.0"
