[package]
name = "predicate_registry"
version = "0.1.0"
edition = "2021"
publish = false

[dependencies]
anchor-lang = "0.31.1"
hex = "=0.4.3"
