[package]
name = "ledpulse"
version = "0.1.0"
edition = "2021"
publish = false

[dependencies]
ds323x = "*"
shared-bus = "*"
static_cell = "*"
defmt = "*"
defmt-rtt = "*"
panic-probe = "*"
cortex-m = "*"
embassy-executor = "*"
embassy-rp = "*"
