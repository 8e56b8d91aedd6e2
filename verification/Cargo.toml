[package]
name = "tracer_core"
version = "0.1.0"
edition = "2021"
publish = false

[dependencies]
cgmath = "=0.18.0"
tobj = "=4.0.5"
vulkano = "=0.34.2"
vulkano-win = "=0.34.0"
winit = "=0.28.7"
