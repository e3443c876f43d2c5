[package]
name = "basket_swap"
version = "0.1.0"
edition = "2021"
publish = false

[dependencies]
alloy-primitives = "*"
alloy-sol-types = "*"
num-bigint = "0.4"
