[package]
name = "cp"
version = "0.1.0"
edition = "2021"
publish = false

[dependencies]
clap = { version = "*", features = ["derive"] }
nix = { version = "*", features = ["fs", "user"] }
filetime = "*"
xattr = "*"
posix-acl = "*"
same-file = "*"
walkdir = "*"
thiserror = "*"
indicatif = "*"
