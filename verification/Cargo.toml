[package]
name = "psqlpy"
version = "0.1.0"
edition = "2021"
publish = false

[dependencies]
tokio-postgres = "=0.7.18"
postgres-types = "=0.2.14"
postgres-protocol = "=0.6.12"
macaddr = "=1.0.1"
byteorder = "=1.5.0"
bytes = "=1.12.1"
pyo3 = "=0.24.2"
pyo3-async-runtimes = { version = "=0.24.0", features = ["tokio-runtime"] }
tokio = { version = "=1.54.1", features = ["full"] }
deadpool = "=0.12.3"
deadpool-postgres = "=0.14.2"
postgres-openssl = "=0.5.3"
openssl = "=0.10.82"
futures = "=0.3.34"
futures-util = "=0.3.34"
futures-channel = "=0.3.34"
