[package]
name = "brokkr-app"
version = "0.1.0"
edition = "2021"
publish = false

[dependencies]
glam = "=0.34.2"
iced = { version = "=0.14.0", default-features = false, features = ["thread-pool", "x11"] }
log = "0.4"
rfd = { version = "0.17", default-features = false, features = ["xdg-portal"] }
