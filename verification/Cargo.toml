[package]
name = "im_native_dialog"
version = "0.1.0"
edition = "2021"
publish = false

[dependencies]
crossbeam-channel = "=0.5.17"
log = "*"
native-dialog = "=0.7.0"
thiserror = "=2.0.21"
