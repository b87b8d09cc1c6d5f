[package]
name = "gerber_layer"
version = "0.1.0"
edition = "2021"
publish = false

[dependencies]
gerber-types = "*"
gerber_parser = "*"
clipper2 = "*"
log = "*"
