[package]
name = "progress_logger"
version = "0.1.0"
edition = "2021"
publish = false

[dependencies]
log = "0.4"
num-format = "0.4"
pluralizer = "*"
sysinfo = "0.29"
