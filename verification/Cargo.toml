[package]
name = "mev_zerocopy_node"
version = "0.1.0"
edition = "2021"
publish = false

[dependencies]
heapless = "*"
minstant = "*"
libc = "*"
log = "*"
env_logger = "*"
core_affinity = "*"
smoltcp = { version = "*", features = ["std", "log", "medium-ethernet", "proto-ipv4", "socket-tcp", "socket-udp", "phy-tuntap_interface"] }
