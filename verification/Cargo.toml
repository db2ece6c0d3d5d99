[package]
name = "subproc"
version = "0.1.0"
edition = "2021"
publish = false

[dependencies]
nix = "=0.17.0"
tempfile = "3"
termios = "0.3"
