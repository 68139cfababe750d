[package]
name = "henrylang"
version = "0.4.2"
edition = "2021"
publish = false

[dependencies]
rustyline = "*"
rustc-hash = "*"
byteorder = "*"
lazy_static = "*"
enum-iterator = "*"
downcast-rs = "*"
dyn-clone = "*"
