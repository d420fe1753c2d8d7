[package]
name = "linkcheck"
version = "0.1.0"
edition = "2021"
publish = false

[dependencies]
html5ever = "0.24"
hyper = "0.10"
url = "2"
