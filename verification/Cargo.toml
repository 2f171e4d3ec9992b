[package]
name = "multiboot2"
version = "0.1.0"
edition = "2021"
publish = false

[dependencies]
derive_more = { version = "0.99", default-features = false, features = ["display"] }
ptr_meta = { version = "0.2", default-features = false }
