[package]
name = "car_gst_plugins"
version = "0.1.0"
edition = "2021"
publish = false

[dependencies]
rayon = "1"
