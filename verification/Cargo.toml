[package]
name = "unjust"
version = "0.1.0"
edition = "2021"
publish = false

[dependencies]
standard_paths = "=2.1.0"
which = "=8.0.6"
console = "=0.16.6"
facet = "=0.43.2"
facet-args = "=0.43.2"
