[package]
name = "magic_markers"
version = "0.1.0"
edition = "2021"
publish = false

[dependencies]
defmt = "1.0"
embassy-executor = { version = "=0.7.0", features = ["arch-std", "executor-thread"] }
embassy-net = { version = "=0.7.0", features = ["tcp", "dns", "proto-ipv4", "medium-ethernet"] }
embassy-sync = "=0.6.2"
embassy-time = { version = "=0.4.0", features = ["std"] }
mfrc522 = "=0.8.0"
reqwless = { version = "=0.13.0", default-features = false }
rtt-target = { version = "0.6", features = ["defmt"] }
