[package]
name = "dns_trace"
version = "0.1.0"
edition = "2021"
publish = false

[dependencies]
clap = "=4.6.7"
futures = "=0.3.34"
tokio = { version = "=1.53.2", features = ["rt", "net", "macros", "time"] }
trust-dns-client = "*"
trust-dns-proto = "=0.23.2"
