[package]
name = "system76_power"
version = "0.1.0"
edition = "2021"
publish = false

[dependencies]
sysfs-class = "0.1"
