[package]
name = "y4m_source"
version = "0.1.0"
edition = "2021"
publish = false

[dependencies]
gifski = "*"
imgref = "*"
rgb = "*"
y4m = "*"
yuv = "*"
