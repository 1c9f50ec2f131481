[package]
name = "dcdt-safe"
version = "0.1.0"
edition = "2021"
publish = false

[dependencies]
dharitri-sc = "=1.19.0"
dharitri-sc-modules = "=1.19.0"
dharitri-sc-scenario = "=1.19.0"
dharitri-chain-vm = "=1.19.0"
dharitri-vm-executor = "=1.0.5"
