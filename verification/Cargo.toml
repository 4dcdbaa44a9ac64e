[package]
name = "elflib"
version = "0.1.0"
edition = "2021"
publish = false

[dependencies]
bincode = "1.3.3"
clap = { version = "3.2", features = ["derive"] }
clap_complete = "3.2"
memmap2 = "0.9"
