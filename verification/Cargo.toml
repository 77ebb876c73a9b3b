[package]
name = "rv_exec"
version = "0.1.0"
edition = "2021"
publish = false

[dependencies]
camino = "1"
saphyr = "*"
thiserror = "*"
miette = "*"
tracing = "*"
fs-err = "*"
axoupdater = "*"
