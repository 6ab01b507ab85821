[package]
name = "embedded_daemon"
version = "0.1.0"
edition = "2021"
publish = false

[dependencies]
liana = { version = "=5.0.0", default-features = false }
async-trait = "=0.1.92"
# Not used directly: pins the version shared with miniscript 11, whose build
# needs the hex module that the 0.2.1 release of this crate removed.
bitcoin-internals = "=0.2.0"
