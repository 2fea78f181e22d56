[package]
name = "schnapsshot"
version = "0.1.0"
edition = "2021"
publish = false

[dependencies]
clap = "4"
image = { version = "0.24", default-features = false, features = ["jpeg", "png"] }
imageproc = "0.23"
kamadak-exif = "0.5"
rusttype = "0.9"
