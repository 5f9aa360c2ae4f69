[package]
name = "sniffer"
version = "0.1.0"
edition = "2021"
publish = false

[dependencies]
pktparse = "=0.7.1"
pcap = "=2.5.0"
getopt = "=1.1.9"

[dev-dependencies]
libc = "=0.2.190"
