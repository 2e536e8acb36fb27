[package]
name = "lb_simple"
version = "0.1.0"
edition = "2021"
publish = false

[dependencies]
anyhow = "1"
clap = { version = "4", features = ["derive"] }
ctrlc = "3"
libbpf-rs = "*"
libc = "0.2"
log = "0.4"
redhook = "*"
scx_utils = "*"
simplelog = "0.12"
