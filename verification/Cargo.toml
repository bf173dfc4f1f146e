[package]
name = "matbridge"
version = "0.1.0"
edition = "2021"
publish = false

[dependencies]
bytemuck = "*"
image = { version = "*", default-features = false }
thiserror = "*"
