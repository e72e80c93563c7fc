[package]
name = "trc2ctf"
version = "0.1.0"
edition = "2021"
publish = false

[dependencies]
babeltrace2-sys = "*"
chrono = "*"
clap = { version = "*", features = ["derive"] }
ctrlc = "*"
trace-recorder-parser = "*"
tracing = "*"
tracing-subscriber = "*"
