[package]
name = "uni_socket"
version = "0.1.0"
edition = "2021"
publish = false

[dependencies]
socket2 = { version = "*", features = ["all"] }
tokio = { version = "1", features = ["net", "rt", "rt-multi-thread", "io-util", "time", "macros"] }
uni-addr = "*"
wrapper-lite = "*"
