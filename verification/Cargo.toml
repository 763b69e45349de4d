[package]
name = "ckb-testtool"
version = "0.1.0"
edition = "2021"
publish = false

[dependencies]
ckb-always-success-script = "=0.0.1"
ckb-chain-spec = "=1.1.3"
ckb-crypto = "=1.1.1"
ckb-error = "=1.1.1"
ckb-hash = "=1.1.1"
ckb-jsonrpc-types = "=1.2.1"
ckb-mock-tx-types = "=1.1.1"
ckb-script = "=1.2.1"
ckb-traits = "=1.1.3"
ckb-types = "=1.1.4"
ckb-verification = "=1.2.1"
faster-hex = "=1.0.0"
lazy_static = "=1.5.1"
libloading = "0.8"
rand = "=0.8.8"
serde_json = "=1.0.154"

[dev-dependencies]
ckb-system-scripts = "=0.6.0"
