[package]
name = "pod-com"
version = "0.1.0"
edition = "2021"
publish = false

[dependencies]
anchor-lang = "=0.29.0"
borsh = "=0.10.4"
light-compressed-token = "=1.2.0"
light-hasher = "=1.1.1"
light-system-program = "=1.2.0"
memsec = "=0.7.0"
