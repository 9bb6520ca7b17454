[package]
name = "asmedia_xhc_trace"
version = "0.1.0"
edition = "2021"
publish = false

[dependencies]
memmap = "0.7"
clap = { version = "4", features = ["derive"] }
