[package]
name = "rboy_desktop"
version = "0.1.0"
edition = "2021"
publish = false

[dependencies]
clap = "2"
cpal = "0.13"
glium = "0.32"
