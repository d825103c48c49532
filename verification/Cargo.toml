[package]
name = "coremidi-hotplug-notification"
version = "0.1.0"
edition = "2021"
publish = false

[dependencies]
coremidi = "*"
core-foundation = "*"
log = "0.4"
once_cell = "1"
