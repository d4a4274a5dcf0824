[package]
name = "mandelbrot"
version = "0.1.0"
edition = "2021"
publish = false

[dependencies]
num = "=0.4.3"
png = "=0.14.1"
rayon = "=1.12.0"
