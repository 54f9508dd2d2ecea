[package]
name = "webcam_detect"
version = "0.1.0"
edition = "2021"
publish = false

[dependencies]
chrono = "0.4"
dirs = "5"
opencv = "0.88"
tempfile = "3"
