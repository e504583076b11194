[package]
name = "png_core"
version = "0.1.0"
edition = "2021"
publish = false

[dependencies]
fdeflate = "0.3"
crc32fast = "1"
png = "0.17"
anyhow = "1"
once_cell = "1"
perfcnt = "0.8"
