[package]
name = "chardev"
version = "0.1.0"
edition = "2021"
publish = false

[dependencies]
axerrno = "0.1.2"
axfs = "0.3.0-preview.3"
axfs_vfs = "0.1.2"
axhal = "0.3.0-preview.3"
axio = "0.1.2"
axlog = "0.3.0-preview.3"
axsync = "0.3.0-preview.3"
axtask = "0.3.0-preview.3"
linux-raw-sys = { version = "0.9.4", features = ["general", "ioctl"] }
