[package]
name = "piano_roll"
version = "0.1.0"
edition = "2021"
publish = false

[dependencies]
vizia = "0.2"
