[package]
name = "plotters_imgui"
version = "0.1.0"
edition = "2021"
publish = false

[dependencies]
earcutr = "=0.2.0"
imgui = "=0.6.1"
plotters-backend = "=0.3.7"
