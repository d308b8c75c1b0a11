[package]
name = "knob"
version = "1.1.4"
edition = "2021"

[dependencies]
getopts = "0.2"
