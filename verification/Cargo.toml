[package]
name = "mbx"
version = "0.1.0"
edition = "2021"
publish = false

[dependencies]
num-traits = "0.2"
log = "0.4"
float-cmp = "*"
nalgebra = "*"
matrixmultiply = "*"
syn = { version = "1", features = ["full", "fold", "extra-traits"] }
quote = "1"
proc-macro2 = "1"
widestring = "*"
winapi = { version = "0.3", features = ["libloaderapi", "minwindef"] }
