[package]
name = "pxe_first_stage"
version = "0.1.0"
edition = "2021"
publish = false

[dependencies]
bytemuck = { version = "1", features = ["min_const_generics"] }
anyhow = "1"
