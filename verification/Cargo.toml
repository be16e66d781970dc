[package]
name = "san_andreas_unbound"
version = "0.1.0"
edition = "2021"
publish = false

[dependencies]
bcrypt = "*"
timer = "*"
chrono = "*"
threadpool = "*"
omp = "*"
mysql = { version = "*", default-features = false, features = ["minimal"] }
