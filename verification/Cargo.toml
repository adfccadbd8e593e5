[package]
name = "minidumper"
version = "0.9.0"
edition = "2021"
publish = false

[dependencies]
crash-context = "0.6"
log = "0.4"
minidump-writer = "0.10"
polling = "3"
scroll = "0.12"
uds = "0.4"
