[package]
name = "osc_to_gpio"
version = "0.1.0"
edition = "2021"
publish = false

[dependencies]
rosc = "0.1"
rppal = "0.2"
serde = "1"
serde_derive = "1"
serde_yaml = "0.9"
