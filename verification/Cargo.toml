[package]
name = "roqoqo_qasm"
version = "0.1.0"
edition = "2021"
publish = false

[dependencies]
qoqo_calculator = "*"
roqoqo = "*"
