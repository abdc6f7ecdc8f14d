[package]
name = "ibc_forwarder"
version = "0.1.0"
edition = "2021"
publish = false

[dependencies]
cosmos-sdk-proto = { version = "=0.16.0", default-features = false }
neutron-sdk = "=0.6.1"
prost = "=0.11.9"
protobuf = "=3.2.0"
serde-json-wasm = "=0.5.2"
cosmwasm-std = "1.3"
cosmwasm-schema = "1.3"
cw-storage-plus = "1.1"
cw2 = "1.1"
serde = "1"
