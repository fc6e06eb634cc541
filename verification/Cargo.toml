[package]
name = "framecap"
version = "0.1.0"
edition = "2021"
publish = false

[dependencies]
regex = "=1.13.1"
winsplit = "=0.1.0"
dashmap = "=6.2.1"
kanal = "=0.1.1"
expanding_slice_rb = "=0.2.2"
clap = { version = "=4.6.7", features = ["derive"] }
color-eyre = "=0.6.5"
libloading = "=0.9.0"
