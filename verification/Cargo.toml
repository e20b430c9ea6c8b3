[package]
name = "https"
version = "0.1.0"
edition = "2021"
publish = false

[dependencies]
iron = "0.5"
lazysort = "*"
md6 = "2.0"
mime = "0.2"
mime_guess = "1.8"
time = "0.1"
trivial_colours = "0.3"
unicase = "1.4"
