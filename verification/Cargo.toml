[package]
name = "maplibre_native"
version = "0.1.0"
edition = "2021"
publish = false

[dependencies]
image = { version = "0.25", default-features = false }
url = "2"
cxx = "1"
thiserror = "2"
log = "0.4"
