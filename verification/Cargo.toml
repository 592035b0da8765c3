[package]
name = "symbol_info"
version = "0.1.0"
edition = "2021"
publish = false

[dependencies]
cpp_demangle = "*"
object = { version = "*", features = ["write"] }
memmap2 = "*"
log = "*"
