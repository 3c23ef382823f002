[package]
name = "hyper_headset"
version = "0.1.0"
edition = "2021"
publish = false

[dependencies]
ctrlc = { version = "3", features = ["termination"] }
hidapi = { version = "2", default-features = false, features = ["linux-native-basic-udev"] }
rusb = { version = "0.9", features = ["vendored"] }
thistermination = "*"
