[package]
name = "typed_list_store"
version = "0.1.0"
edition = "2021"
publish = false

[dependencies]
gio = "*"
glib = "*"
