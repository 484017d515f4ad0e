[package]
name = "rnote"
version = "0.1.0"
edition = "2021"
publish = false

[dependencies]
slotmap = "=1.1.1"
image = { version = "=0.25.10", default-features = false, features = ["png", "jpeg", "bmp"] }
time = { version = "=0.3.55", features = ["formatting"] }
gtk4 = "=0.11.5"
libadwaita = "=0.9.2"
gettext-rs = "=0.8.0"
log = "=0.4.35"
anyhow = "=1.0.104"
fs_extra = "=1.3.0"
same-file = "=1.0.6"
url = "=2.5.8"
