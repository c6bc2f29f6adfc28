[package]
name = "urap"
version = "0.1.0"
edition = "2021"
publish = false

[dependencies]
bytemuck = { version = "=1.25.2", features = ["min_const_generics"] }
embedded-io = { version = "=0.7.1", features = ["std"] }
