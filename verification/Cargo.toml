[package]
name = "tetris"
version = "0.1.0"
edition = "2021"
publish = false

[dependencies]
array2d = "0.3"
rand = "0.8"
femtovg = "*"
glutin = "0.32"
glutin-winit = "0.5"
raw-window-handle = "0.6"
winit = "0.30"
num = "0.4"
