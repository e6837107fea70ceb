[package]
name = "odbc_rs"
version = "0.1.0"
edition = "2021"
publish = false

[dependencies]
chrono = "=0.4.45"
chrono-tz = "=0.10.4"
odbc-api = { version = "=29.3.0", default-features = false, features = ["odbc_version_3_80", "vendored-unix-odbc"] }
ouroboros = "=0.18.5"
extendr-api = "=0.9.0"
