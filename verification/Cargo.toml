[package]
name = "genomic_structures"
version = "0.1.0"
edition = "2021"
publish = false

[dependencies]
anyhow = "1"
colored = "2"
libc = "0.2"
thiserror = "1"
