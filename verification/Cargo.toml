[package]
name = "hotline_mod_manager"
version = "0.1.0"
edition = "2021"
publish = false

[dependencies]
anyhow = "1"
fs_extra = "1"
indicatif = "0.17"
inquire = "0.7"
thiserror = "1"
