[package]
name = "rmu_client"
version = "0.1.0"
edition = "2021"
publish = false

[dependencies]
anyhow = "*"
bit_ops = "*"
clap = { version = "*", features = ["derive"] }
clap-num = "*"
libc = "*"
mac_address = "*"
num-traits = "*"
smol = "*"
socket2 = "*"
strum = { version = "*", features = ["derive"] }
strum_macros = "*"
