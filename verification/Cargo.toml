[package]
name = "amberol_core"
version = "0.1.0"
edition = "2021"
publish = false

[dependencies]
mpris-server = "0.6"
async-channel = "2"
log = "0.4"
once_cell = "1"
