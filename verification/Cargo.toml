[package]
name = "tray_icon"
version = "0.1.0"
edition = "2021"
publish = false

[dependencies]
cocoa = "0.25"
core-graphics = "0.23"
objc = "0.2"
