[package]
name = "wireframe"
version = "0.1.0"
edition = "2021"
publish = false

[dependencies]
rand = "*"
rayon = "*"
flo_canvas = "*"
flo_draw = "*"
