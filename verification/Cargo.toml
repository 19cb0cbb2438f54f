[package]
name = "marketplace"
version = "0.1.0"
edition = "2021"
publish = false

[dependencies]
ink = { version = "4" }
openbrush = { version = "3", features = ["psp34", "ownable", "reentrancy_guard"] }
parity-scale-codec = { version = "3", features = ["derive"] }
scale-info = { version = "2", features = ["derive"] }
