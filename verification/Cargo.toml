[package]
name = "pied_piper"
version = "0.1.0"
edition = "2021"

[dependencies]
async-trait = "0.1"
