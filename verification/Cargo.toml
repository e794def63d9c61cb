[package]
name = "cinemacontrol"
version = "0.1.0"
edition = "2021"
publish = false

[dependencies]
anyhow = "=1.0.104"
argh = "=0.1.19"
hidapi = { version = "=2.6.7", default-features = false, features = ["linux-native-basic-udev"] }
embedded-hal-async = "=1.0.0"
embedded-fans-async = "=0.2.0"
pid = "=4.0.0"
