[package]
name = "dnetd"
version = "0.1.0"
edition = "2021"
publish = false

[dependencies]
anyhow = "1"
clap = "3"
libc = "0.2"
log = "0.4"
memfd = "0.4"
memmap = "0.7"
stderrlog = "0.5"
