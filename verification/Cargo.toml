[package]
name = "level_editor"
version = "0.1.0"
edition = "2021"
publish = false

[dependencies]
bottomless-pit = "*"
bytemuck = "*"
rfd = "*"
rustc_apfloat = "*"
