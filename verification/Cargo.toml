[package]
name = "gooddata_fs"
version = "0.1.0"
edition = "2021"
publish = false

[dependencies]
fuse = "0.2"
libc = "0.2"
time = "0.1"
