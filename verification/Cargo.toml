[package]
name = "scrypto_unit"
version = "1.4.0"
edition = "2021"
publish = false

[dependencies]
radix-common = "=1.4.0"
radix-engine = { version = "=1.4.0", default-features = false, features = ["std", "lru"] }
radix-engine-interface = "=1.4.0"
radix-substate-store-impls = "=1.4.0"
radix-substate-store-interface = "=1.4.0"
radix-transactions = "=1.4.0"
