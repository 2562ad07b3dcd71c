[package]
name = "text_editor"
version = "0.1.0"
edition = "2021"
publish = false

[dependencies]
gtk4 = "0.6"
gdk4 = "0.6"
gdk-pixbuf = "0.17"
gio = "0.17"
glib-macros = "0.17"
