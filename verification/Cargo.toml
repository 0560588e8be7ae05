[package]
name = "packet_sniffer"
version = "0.1.0"
edition = "2021"
publish = false

[dependencies]
chrono = "=0.4.45"
etherparse = "=0.9.0"
stfu8 = "=0.2.7"
anyhow = "=1.0.104"
argh = "=0.1.19"
crossterm = "=0.25.0"
tui = "=0.19.0"
pcap = "=2.5.0"
pallet = "=0.7.0"
tempfile = "=3.27.0"
serde = { version = "=1.0.229", features = ["derive"] }
