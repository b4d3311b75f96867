[package]
name = "brug"
version = "0.1.0"
edition = "2021"
publish = false

[dependencies]
byte-unit = "4"
jemallocator = "0.5"
libc = "0.2"
mimalloc = { version = "0.1", default-features = false }

[dev-dependencies]
arrow = { version = "*", default-features = false }
