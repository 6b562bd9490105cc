[package]
name = "nuclear_material"
version = "0.1.0"
edition = "2021"
publish = false

[dependencies]
bytemuck = "*"
wgpu = "*"
