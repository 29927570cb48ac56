[package]
name = "wpaperd_core"
version = "0.1.0"
edition = "2021"
publish = false

[dependencies]
image = { version = "*", default-features = false, features = ["png", "jpeg"] }
log = "*"
smithay-client-toolkit = { version = "*", default-features = false, features = ["calloop"] }
