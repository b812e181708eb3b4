[package]
name = "smush_file"
version = "0.1.0"
edition = "2021"
publish = false

[dependencies]
binread = "=2.2.0"
crossbeam-utils = "*"
csb = "=0.2.0"
humansize = "=2.1.3"
nus3audio = "=1.2.0"
nutexb = "=0.7.0"
prc-rs = "=1.6.1"
serde_yaml = "=0.9.34"
ssbh_lib = "=0.19.0"
