[package]
name = "rahmen"
version = "0.1.0"
edition = "2021"
publish = false

[dependencies]
image = "*"
clap = "*"
glob = "*"
itertools = "*"
regex = "*"
convert_case = "*"
chrono = "*"
xdg = "*"
ctrlc = "*"
framebuffer = "*"
log = "*"
font-kit = "*"
pathfinder_geometry = "*"
rexiv2 = "*"
serde = { version = "*", features = ["derive"] }
toml = "*"
