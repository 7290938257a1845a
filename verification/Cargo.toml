[package]
name = "boost_match"
version = "0.1.0"
edition = "2021"
publish = false

[dependencies]
alloy-primitives = "=0.7.6"
# The three macro crates and ruint are named only to hold their versions:
# stylus-sdk 0.6.1 wants alloy-sol-types 0.7.6, whose `sol!` needs the macro
# crates of the same patch, and it builds with ruint 1.12 but not with later
# ones. ruint is the number type behind alloy-primitives' U256.
alloy-sol-macro = "=0.7.6"
alloy-sol-macro-expander = "=0.7.6"
alloy-sol-macro-input = "=0.7.6"
alloy-sol-types = "=0.7.6"
ruint = "=1.12.3"
stylus-sdk = "=0.6.1"
