[package]
name = "screen_overlay"
version = "0.1.0"
edition = "2021"
publish = false

[dependencies]
parking_lot = "0.12"
x11-dl = "2.21"
