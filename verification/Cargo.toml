[package]
name = "shell_history"
version = "0.1.0"
edition = "2021"
publish = false

[dependencies]
sysinfo = "=0.30.13"
home = "=0.5.12"
colored = "=3.1.1"
thiserror = "=2.0.21"
