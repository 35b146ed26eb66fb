[package]
name = "ebpf_trace"
version = "0.1.0"
edition = "2021"
publish = false

[dependencies]
anyhow = "1"
aya = "0.13"
aya-log = "0.2"
aya-ebpf = "0.1"
aya-log-ebpf = "0.1"
clap = { version = "4", features = ["derive"] }
env_logger = "0.11"
hdrhistogram = "7"
libc = "0.2"
log = "0.4"
rand = "0.9"
tokio = { version = "1", features = ["macros", "rt-multi-thread", "signal", "net"] }
