[package]
name = "threemu"
version = "0.1.0"
edition = "2021"
publish = false

[dependencies]
clap = { version = "4", features = ["derive"] }
fatfs = "0.3"
fscommon = "0.1"
softbuffer = "0.4"
tracing = "0.1"
tracing-subscriber = { version = "0.3", features = ["env-filter"] }
unicorn-engine = "2.1"
winit = "0.30"
