[package]
name = "rustless"
version = "0.1.0"
edition = "2021"
publish = false

[dependencies]
regex = "1"
mime = "0.2"
hyper = { version = "0.9", default-features = false }
iron = { version = "0.4", default-features = false }
typemap = "0.3"
url = "1"
