[package]
name = "svg_export"
version = "0.1.0"
edition = "2021"
publish = false

[dependencies]
resvg = "*"
usvg = "*"
tiny-skia = "*"
