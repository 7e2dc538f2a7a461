[package]
name = "push_rules"
version = "0.1.0"
edition = "2021"
publish = false

[dependencies]
js_int = "=0.2.2"
ruma-identifiers = "=0.18.1"
ruma-identifiers-validation = "=0.2.2"
