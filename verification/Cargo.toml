[package]
name = "dwarf_units"
version = "0.1.0"
edition = "2021"
publish = false

[dependencies]
gimli = "*"
object = { version = "*", features = ["wasm"] }
memmap2 = "*"
typed-arena = "*"
