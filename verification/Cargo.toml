[package]
name = "fetchr"
version = "0.1.0"
edition = "2021"
publish = false

[dependencies]
uuid = { version = "=1.27.0", features = ["v4"] }
hyper = { version = "=1.11.1", features = ["client", "http1"] }
hyper-util = { version = "0.1", features = ["tokio"] }
http-body-util = "=0.1.5"
tokio = { version = "=1.53.2", features = ["net", "rt", "rt-multi-thread", "macros", "time", "fs", "io-util"] }
url = "=2.5.8"
structopt = "=0.3.26"
