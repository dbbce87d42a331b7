[package]
name = "kolibri-embedded-gui"
version = "0.1.0"
edition = "2021"
publish = false

[dependencies]
embedded-graphics = "0.8"
embedded-iconoir = "0.2"
