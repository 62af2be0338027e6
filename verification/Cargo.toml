[package]
name = "morlana"
version = "0.1.0"
edition = "2021"
publish = false

[dependencies]
clap = { version = "=4.6.7", features = ["derive"] }
clap_complete = "=4.6.11"
color-eyre = "=0.6.5"
eyre = "=0.6.14"
nix = { version = "=0.31.3", features = ["user", "process"] }
owo-colors = "=4.4.0"
serde = { version = "=1.0.229", features = ["derive"] }
serde_json = "=1.0.154"
uzers = "=0.12.2"
walkdir = "=2.5.0"
enum_dispatch = "=0.3.13"
dix = "=2.2.0"
