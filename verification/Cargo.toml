[package]
name = "station_server"
version = "0.1.0"
edition = "2021"
publish = false

[dependencies]
heapless = "0.8"
embedded-svc = "*"
log = "*"
anyhow = "*"
futures = "*"
esp-idf-svc = "*"
esp-idf-hal = "*"
esp-idf-sys = "*"
