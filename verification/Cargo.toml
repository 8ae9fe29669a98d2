[package]
name = "reth_mev"
version = "0.1.0"
edition = "2021"
publish = false

[dependencies]
alloy-consensus = { version = "=2.5.0", default-features = false, features = ["std"] }
alloy-eips = { version = "=2.5.0", default-features = false, features = ["std", "serde"] }
alloy-evm = { version = "=0.34.0", default-features = false, features = ["std", "overrides"] }
alloy-primitives = { version = "=1.7.3", default-features = false, features = ["std", "serde"] }
alloy-rpc-types-eth = { version = "=2.5.0", default-features = false, features = ["std", "serde"] }
alloy-rpc-types-trace = { version = "=2.5.0", default-features = false }
async-trait = "0.1"
crossbeam-channel = "=0.5.17"
jsonrpsee = { version = "=0.26.1", default-features = false, features = ["server", "macros"] }
metrics = "=0.24.6"
moka = { version = "=0.12.16", features = ["sync"] }
revm = { version = "=38.0.0", default-features = false, features = ["std", "memory_limit", "optional_block_gas_limit", "optional_eip3607", "optional_no_base_fee", "optional_fee_charge"] }
revm-inspectors = { version = "=0.39.2", default-features = false, features = ["std"] }
serde = { version = "1", features = ["derive"] }
serde_json = "1"
thiserror = "2"
tokio = { version = "=1.54.1", features = ["sync", "rt", "time"] }
tracing = "0.1"
