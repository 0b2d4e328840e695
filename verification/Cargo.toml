[package]
name = "mesh_viewer"
version = "0.1.0"
edition = "2021"
publish = false

[dependencies]
tobj = "1.0"
image = { version = "0.23", default-features = false, features = ["png"] }
glium = "0.25"
