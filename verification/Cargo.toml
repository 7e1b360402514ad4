[package]
name = "wilhelm_renderer_imgui"
version = "0.1.0"
edition = "2021"
publish = false

[dependencies]
wilhelm_renderer = "*"
