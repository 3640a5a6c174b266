[package]
name = "rsfdisk"
version = "0.1.0"
edition = "2021"
publish = false

[dependencies]
libc = "0.2"
log = "0.4"
once_cell = "1"
thiserror = "1"
rsfdisk-sys = "*"
