[package]
name = "tarifuzzer"
version = "0.1.0"
edition = "2021"
publish = false

[dependencies]
hex = "=0.4.3"
proptest = "=1.12.0"
tari_utilities = "=0.11.0"
anyhow = "=1.0.104"
thiserror = "=1.0.69"
log = "=0.4.34"
env_logger = "=0.9.3"
structopt = "=0.3.26"
clap = "=2.34.0"
cargo_metadata = "=0.12.3"
lazy_static = "=1.5.1"
once_cell = "=1.21.4"
digest = "=0.10.7"
blake2 = "=0.10.6"
tari_mmr = "=6.2.0"
