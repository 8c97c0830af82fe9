[package]
name = "trial_exec"
version = "0.1.0"
edition = "2021"
publish = false

[dependencies]
clap = { version = "4", features = ["derive"] }
libc = "0.2"
nix = { version = "*", features = ["process", "signal"] }
pcap = "*"
pyo3 = "*"
run_script = "*"
