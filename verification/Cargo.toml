[package]
name = "ahci_block"
version = "0.1.0"
edition = "2021"
publish = false

[dependencies]
ahci-driver = "*"
axdriver_base = "*"
log = "0.4"
