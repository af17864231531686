[package]
name = "pingmon"
version = "0.1.0"
edition = "2021"
publish = false

[dependencies]
clap = { version = "*", features = ["derive"] }
flexi_logger = { version = "*", features = ["compress"] }
futures-util = "*"
log = "*"
surge-ping = "*"
tokio = { version = "*", features = ["macros", "rt-multi-thread", "signal", "sync", "time"] }
trust-dns-resolver = "*"
url = "*"
