[package]
name = "ccplan_gui"
version = "0.1.0"
edition = "2021"
publish = false

[dependencies]
jiff = "*"
eframe = { version = "*", default-features = false, features = ["glow", "x11"] }
