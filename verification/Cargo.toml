[package]
name = "packet_inspect"
version = "0.1.0"
edition = "2021"
publish = false

[dependencies]
aya-ebpf = "=0.1.1"
aya-ebpf-bindings = "=0.1.2"
aya-log-ebpf = "=0.1.0"
network-types = "=0.1.0"
