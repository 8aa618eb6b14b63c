[package]
name = "presquile"
version = "0.1.0"
edition = "2021"
publish = false

[dependencies]
csv = "*"
id3 = "*"
lofty = "*"
fs_extra = "*"
clap = { version = "*", features = ["derive"] }

[dev-dependencies]
tempfile = "*"
