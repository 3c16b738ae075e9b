[package]
name = "packetstats"
version = "0.1.0"
edition = "2021"
publish = false

[dependencies]
etherparse = "*"
pcap = "*"
dns-lookup = "*"
argparse = "*"
anyhow = "*"
