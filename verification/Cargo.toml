[package]
name = "rukey"
version = "0.1.0"
edition = "2021"
publish = false

[dependencies]
heapless = { version = "*", features = ["serde"] }
serde = { version = "1", features = ["derive"] }
postcard = { version = "1", features = ["use-std"] }
sequential-storage = "*"
embedded-storage-async = "*"
futures = "*"
kdl = "*"
kdl-config = "*"
kdl-config-derive = "*"
miette = { version = "7", features = ["fancy"] }
clap = { version = "4", features = ["derive"] }
picoboot-rs = "*"
rusb = "*"
strum = { version = "*", features = ["derive"] }
