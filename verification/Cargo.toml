[package]
name = "grr_util"
version = "0.1.0"
edition = "2021"
publish = false

[dependencies]
grr = "0.8"
glutin = "0.24"
imgui = "0.4"
imgui-winit-support = "0.4"
image = "0.23"
ndarray = "0.13"
nalgebra = "0.21"
num-traits = "0.2"
palette = "0.5"
thiserror = "1"
