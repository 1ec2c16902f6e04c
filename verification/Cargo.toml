[package]
name = "rz-ecvrf"
version = "0.1.0"
edition = "2021"
publish = false

[dependencies]
tiny-ec = "*"
tiny-keccak = { version = "2", features = ["keccak"] }
libecvrf = "*"
risc0-zkvm = "*"
tracing-subscriber = { version = "0.3", features = ["env-filter"] }
