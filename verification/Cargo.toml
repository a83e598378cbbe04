[package]
name = "napkin_math"
version = "0.1.0"
edition = "2021"
publish = false

[dependencies]
byte-unit = "=4.0.19"
clap = "=2.34.0"
crc32fast = "=1.5.2"
libc = "=0.2.190"
mysql = { version = "=28.0.3", default-features = false, features = ["default-rust"] }
num-format = "=0.4.4"
page_size = "=0.6.0"
rand = "=0.8.8"
redis = "=1.7.1"
regex = "=1.13.1"
rio = "=0.9.4"
sha2 = "=0.10.9"
