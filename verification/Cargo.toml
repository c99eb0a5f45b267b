[package]
name = "sor4_splitter"
version = "0.1.0"
edition = "2021"
publish = false

[dependencies]
asr = "*"
once_cell = "*"
spinning_top = "*"
widestring = "*"
