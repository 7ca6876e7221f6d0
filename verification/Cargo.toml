[package]
name = "lumamod"
version = "0.1.0"
edition = "2021"
publish = false

[dependencies]
crc32fast = "=1.5.2"
futuresdr = { version = "=0.7.0", default-features = false }
image = "=0.25.10"
plotters = "=0.3.7"
