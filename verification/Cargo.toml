[package]
name = "mars_contracts"
version = "0.1.0"
edition = "2021"
publish = false

[dependencies]
cosmwasm-std = { version = "=1.5.11", features = ["stargate"] }
cw-storage-plus = "=1.2.0"
cw20 = "=1.1.2"
cw20-base = { version = "=1.1.2", features = ["library"] }
cw-utils = "=1.0.3"
osmo-bindings = "=0.6.0"
astroport = "=2.9.5"
schemars = "=0.8.22"
serde = { version = "=1.0.229", features = ["derive"] }
thiserror = "=1.0.69"
