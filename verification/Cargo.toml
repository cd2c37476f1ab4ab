[package]
name = "luminance_glutin"
version = "0.1.0"
edition = "2021"
publish = false

[dependencies]
gl = "=0.14.0"
glutin = "=0.29.1"
luminance-windowing = "=0.10.1"
