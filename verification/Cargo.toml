[package]
name = "beaconctl"
version = "0.1.0"
edition = "2021"
publish = false

[dependencies]
btleplug = "*"
clap = { version = "*", features = ["derive"] }
lighthouse = "*"
tokio = { version = "*", features = ["macros", "rt-multi-thread", "sync", "time"] }
tokio-stream = "*"
uuid = "*"
