[package]
name = "servo_webview"
version = "0.1.0"
edition = "2021"
publish = false

[dependencies]
keyboard-types = "*"
url = "2"
http = "1"
dpi = "*"
euclid = "*"
godot = "*"
