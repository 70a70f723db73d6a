[package]
name = "pin_vault"
version = "0.1.0"
edition = "2021"
publish = false

[dependencies]
cortex-m = "*"
cortex-m-rt = "*"
defmt = "*"
defmt-rtt = "*"
embassy-mspm0 = "*"
panic-halt = "*"
rand_core = "*"
