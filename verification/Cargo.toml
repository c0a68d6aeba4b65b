[package]
name = "instafade"
version = "0.1.0"
edition = "2021"
publish = false

[dependencies]
image = { version = "0.24", default-features = false, features = ["png"] }
color-name = "*"
dialoguer = "*"
fs_extra = "*"
rust-ini = "*"
native-dialog = "*"
regex = "*"

[dev-dependencies]
imageproc = { version = "0.23", default-features = false }
