[package]
name = "mandelbrot_area"
version = "0.1.0"
edition = "2021"
publish = false

[dependencies]
ctrlc = "3"
rand = "0.8"
