[package]
name = "terminusdb_store_prolog"
version = "0.1.0"
edition = "2021"
publish = false

[dependencies]
terminus-store = "=0.21.5"
tdb-succinct = "=0.1.2"
swipl = "=0.3.16"
gmp-mpfr-sys = { version = "~1.5", default-features = false, features = ["use-system-libs"] }
