[package]
name = "slot_registry"
version = "0.1.0"
edition = "2021"
publish = false

[dependencies]
frame-support = { version = "=48.1.0", default-features = false }
frame-system = { version = "=48.0.0", default-features = false }
parity-scale-codec = { version = "=3.7.5", default-features = false, features = ["derive"] }
polkadot-primitives = { version = "=25.0.0", default-features = false }
polkadot-runtime-common = { version = "=33.0.0", default-features = false }
polkadot-runtime-parachains = { version = "=29.0.0", default-features = false }
scale-info = { version = "=2.11.6", default-features = false, features = ["derive"] }
