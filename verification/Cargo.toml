[package]
name = "scantpaper"
version = "0.1.0"
edition = "2021"
publish = false

[dependencies]
gtk = "0.18"
gio = "0.18"
glib = "0.18"
once_cell = "1"
