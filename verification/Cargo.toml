[package]
name = "grapher"
version = "0.1.0"
edition = "2021"
publish = false

[dependencies]
regex = "1"
structopt = "0.3"
minifb = "*"
plotters = "*"
