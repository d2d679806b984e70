[package]
name = "vpn_exit"
version = "0.1.0"
edition = "2021"
publish = false

[dependencies]
anyhow = "*"
async-dup = "*"
bytes = "*"
cidr-utils = "=0.5.11"
fastrand = "*"
futures-util = "*"
libc = "*"
log = "*"
moka = { version = "*", features = ["sync"] }
once_cell = "*"
os_socketaddr = "*"
parking_lot = "*"
rand = "=0.8.8"
scopeguard = "*"
smol = "*"
tundevice = "*"

[dev-dependencies]
bincode = "=1.3.3"
pnet_packet = "*"
