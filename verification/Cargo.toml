[package]
name = "softpaint"
version = "0.1.0"
edition = "2021"
publish = false

[dependencies]
hashbrown = "*"
egui = "*"
euc = "*"
num-traits = "*"
