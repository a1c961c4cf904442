[package]
name = "carbondrive"
version = "0.1.0"
edition = "2021"
publish = false

[dependencies]
soroban-sdk = "22"
stellar-access = "0.4.1"
stellar-macros = "0.4.1"
stellar-tokens = "0.4.1"
