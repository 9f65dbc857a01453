[package]
name = "rcx"
version = "0.1.0"
edition = "2021"
publish = false

[dependencies]
chumsky = "=0.13.0"
hex = "=0.4.3"
miette = "=7.6.0"
regex = "=1.13.1"
thiserror = "=1.0.69"
tracing = "=0.1.44"
