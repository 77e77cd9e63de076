[package]
name = "intes"
version = "0.1.0"
edition = "2021"
publish = false

[dependencies]
fltk = "*"
fltk-accesskit = "*"
fltk-theme = "*"
