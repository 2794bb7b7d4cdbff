[package]
name = "event_relay"
version = "0.1.0"
edition = "2021"
publish = false

[dependencies]
alloy = { version = "0.3", default-features = false, features = ["std", "contract", "eips", "json", "network", "providers", "rpc-types", "signers", "sol-types"] }
ic-cdk = "0.16"
ic-cdk-timers = "0.10"
