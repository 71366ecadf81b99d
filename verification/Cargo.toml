[package]
name = "contract_schedule"
version = "0.1.0"
edition = "2021"
publish = false

[dependencies]
parity-wasm = "*"
pwasm-utils = "*"

[dev-dependencies]
parity-scale-codec = "*"
