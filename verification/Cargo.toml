[package]
name = "tcpkali2"
version = "0.1.1"
edition = "2021"
publish = false

[dependencies]
bytes = "1"
clap = "4"
crossbeam-deque = "0.8"
futures = "0.3"
hdrhistogram = { version = "7", default-features = false }
parking_lot = "0.12"
rand = "0.9"
thiserror = "2"
tokio = { version = "1", features = ["rt-multi-thread", "net", "time", "io-util", "signal", "sync", "macros"] }
tokio-tungstenite = "0.26"
tungstenite = "0.26"
