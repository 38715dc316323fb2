[package]
name = "shroud"
version = "0.1.0"
edition = "2021"
publish = false

[dependencies]
p3-challenger = "=0.5.4"
p3-keccak = "=0.5.4"
p3-baby-bear = "=0.5.4"
p3-symmetric = "=0.5.4"
