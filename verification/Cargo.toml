[package]
name = "dns_metrics"
version = "0.1.0"
edition = "2021"
publish = false

[dependencies]
etherparse = "0.9"
dns-parser = "0.8"
prometheus = "0.13"
log = "0.4"
simple_logger = "1"
structopt = "0.3"
thiserror = "1"
futures = "0.3"
smol = "1"
async-std = { version = "1", features = ["attributes"] }
tide = { version = "0.16", default-features = false, features = ["h1-server"] }
pcap-async = "*"
