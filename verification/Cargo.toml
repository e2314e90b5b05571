[package]
name = "nommo_volume"
version = "0.1.0"
edition = "2021"
publish = false

[dependencies]
hidapi = { version = "=2.6.7", default-features = false, features = ["linux-native-basic-udev"] }
libpulse-binding = "=2.30.1"
pulsectl-rs = "=0.3.2"
subprocess = "=1.2.1"
