[package]
name = "trs"
version = "0.1.0"
edition = "2021"
publish = false

[dependencies]
regex = "1"
ssh2 = "0.9"
rlua = "*"
clap = "2"
termion = "1"
rpassword = "*"
