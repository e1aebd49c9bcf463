[package]
name = "ren"
version = "0.1.0"
edition = "2021"
publish = false

[dependencies]
ash = "0.37"
ash-window = "0.12"
raw-window-handle = "0.5"
slotmap = "1.0"
thiserror = "1.0"
