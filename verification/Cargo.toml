[package]
name = "sevenz_rust2"
version = "0.1.0"
edition = "2021"
publish = false

[dependencies]
crc32fast = "*"
sha2 = "*"
aes = "*"
cbc = { version = "*", features = ["alloc", "block-padding"] }
getrandom = "*"
lz4_flex = "*"
bzip2 = "*"
flate2 = "*"
zstd = "*"
