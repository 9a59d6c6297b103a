[package]
name = "pika_backup"
version = "0.1.0"
edition = "2021"
publish = false

[dependencies]
gtk4 = "*"
libadwaita = "*"
glib = "*"
gio = "*"
zbus = "*"
async-std = "*"
async-lock = "*"
futures = "*"
oo7 = "*"
ashpd = "*"
