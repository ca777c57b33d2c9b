[package]
name = "justi"
version = "0.1.0"
edition = "2021"
publish = false

[dependencies]
gouache = "=0.1.0"
portaudio = "0.7"
hound = "3"
nfd = "=0.0.4"
glfw = "*"
gl = "*"
