[package]
name = "celestia_da_client"
version = "0.1.0"
edition = "2021"
publish = false

[dependencies]
anyhow = "=1.0.104"
async-trait = "=0.1.92"
bincode = "=1.3.3"
celestia-types = "=0.6.1"
console = "=0.15.11"
hex = "=0.4.3"
thiserror = "=1.0.69"
tonic = { version = "=0.11.0", default-features = false, features = ["transport"] }
xshell = "=0.2.7"
