[package]
name = "solox"
version = "0.1.0"
edition = "2021"
publish = false

[dependencies]
vcell = "0.1"
nb = "0.1"
void = "1"
bare-metal = "0.2"
cortex-m = "0.7"
rlibc = "1"
wee_alloc = "0.4"
sel4-sys = "*"
