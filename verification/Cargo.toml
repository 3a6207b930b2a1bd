[package]
name = "carbide_dhcp"
version = "0.1.0"
edition = "2021"
publish = false

[dependencies]
dhcproto = "0.15"
ipnetwork = "*"
mac_address = "*"
libredfish = "*"
http = "1"
lru = "*"
moka = { version = "0.12", features = ["future"] }
arc-swap = "1"
async-trait = "0.1"
chrono = "0.4"
libc = "0.2"
serde = { version = "1", features = ["derive"] }
serde_yaml = "0.9"
socket2 = { version = "*", features = ["all"] }
thiserror = "*"
tokio = { version = "1", features = ["full"] }
tokio-util = "0.7"
tonic = "*"
tracing = "0.1"
tracing-subscriber = { version = "0.3", features = ["env-filter"] }
