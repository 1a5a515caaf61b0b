[package]
name = "nngraph"
version = "0.1.0"
edition = "2021"
publish = false

[dependencies]
nnapi = "=0.2.0"
nnapi-sys = "=0.1.1"
log = "=0.4.34"
android_logger = "=0.15.1"
