[package]
name = "node_console"
version = "0.1.0"
edition = "2021"
publish = false

[dependencies]
bitcoin = "=0.29.2"
colored = "=2.2.0"
ldk-node = "=0.1.0"
lightning-invoice = "=0.23.0"
lnurl-rs = "=0.2.7"
rustyline = "=12.0.0"
