[package]
name = "gnethogs"
version = "0.1.0"
edition = "2021"
publish = false

[dependencies]
users = "=0.11.0"
gtk = "=0.15.5"
glib = "=0.15.12"
gio = "=0.15.12"
once_cell = "=1.21.4"
