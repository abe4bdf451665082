[package]
name = "sysfetch"
version = "0.1.0"
edition = "2021"
publish = false

[dependencies]
colored = "=2.2.0"
os-release = "=0.1.0"
sysinfo = "0.25"
whoami = "=1.6.1"
