[package]
name = "git_ref"
version = "0.1.0"
edition = "2021"
publish = false

[dependencies]
git-validate = "*"
git-hash = "*"
bstr = "*"
tempfile = "3"
