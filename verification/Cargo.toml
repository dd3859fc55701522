[package]
name = "az_token_sale_to_airdrop"
version = "0.1.0"
edition = "2021"
publish = false

[dependencies]
primitive-types = { version = "0.12", default-features = false }
ink = { version = "4", default-features = false, features = ["std"] }
openbrush = { version = "*", default-features = false, features = ["std", "psp22"] }
parity-scale-codec = { version = "3", default-features = false, features = ["derive", "std"] }
scale-info = { version = "2", default-features = false, features = ["derive", "std"] }
